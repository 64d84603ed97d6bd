use vstd::prelude::*;

use crate::batch::is_actor_entry;
use crate::errors::SupplyChainError;
use crate::event_log::{append_event, has_room};
use crate::state::{
    bounded_text, digest_is_zero, is_zero_digest, text_is_bounded, Batch, Certification,
    ComplianceFlagsStruct, Event, EventType, Pubkey, Role, UserProfile, CERTIFICATION_CID_LENGTH,
    CERTIFICATION_TYPE_LENGTH,
};

verus! {

/// The first check that issuing a certification fails, if any.
pub open spec fn issue_certification_error(
    batch: Batch,
    issuer_profile: UserProfile,
    issuer: Pubkey,
    cert_type: Seq<char>,
    cert_hash: [u8; 32],
    cert_cid: Seq<char>,
) -> Option<SupplyChainError> {
    if issuer_profile.role != Role::Regulator {
        Some(SupplyChainError::InvalidRole)
    } else if !issuer_profile.is_approved {
        Some(SupplyChainError::UserNotApproved)
    } else if issuer != issuer_profile.user_wallet {
        Some(SupplyChainError::WalletMismatch)
    } else if !batch.compliance.cold_chain_compliant {
        Some(SupplyChainError::BatchNotCompliant)
    } else if is_zero_digest(cert_hash) {
        Some(SupplyChainError::InvalidDetailsHash)
    } else if !bounded_text(cert_cid, CERTIFICATION_CID_LENGTH as nat) {
        Some(SupplyChainError::InvalidDetailsCid)
    } else if !bounded_text(cert_type, CERTIFICATION_TYPE_LENGTH as nat) {
        Some(SupplyChainError::InvalidCertificationType)
    } else if !has_room(batch, 1) {
        Some(SupplyChainError::TooManyEvents)
    } else {
        None
    }
}

/// An approved regulator certifies a cold-chain compliant batch. The batch
/// is marked certified and the certificate's digest and identifier enter
/// its log.
pub fn issue_certification(
    batch: &mut Batch,
    issuer_profile: &UserProfile,
    issuer: Pubkey,
    cert_type: String,
    cert_hash: [u8; 32],
    cert_cid: String,
    now: i64,
) -> (r: Result<Certification, SupplyChainError>)
    requires
        old(batch).wf(),
    ensures
        final(batch).wf(),
        match r {
            Ok(cert) => {
                &&& issue_certification_error(
                    *old(batch),
                    *issuer_profile,
                    issuer,
                    cert_type@,
                    cert_hash,
                    cert_cid@,
                ) is None
                &&& cert == (Certification {
                    batch_id: old(batch).id,
                    cert_type,
                    issuer,
                    issue_data: now,
                    cert_hash,
                    cert_cid,
                    valid: true,
                })
                &&& final(batch).events@.len() == old(batch).events@.len() + 1
                &&& final(batch).events@.drop_last() == old(batch).events@
                &&& is_actor_entry(
                    final(batch).events@.last(),
                    EventType::ComplianceCheck,
                    now,
                    issuer,
                    cert_hash@,
                    cert_cid@,
                )
                &&& *final(batch) == (Batch {
                    compliance: ComplianceFlagsStruct {
                        certification_issued: true,
                        ..old(batch).compliance
                    },
                    events: final(batch).events,
                    ..*old(batch)
                })
            },
            Err(e) => {
                &&& issue_certification_error(
                    *old(batch),
                    *issuer_profile,
                    issuer,
                    cert_type@,
                    cert_hash,
                    cert_cid@,
                ) == Some(e)
                &&& *final(batch) == *old(batch)
            },
        },
{
    if issuer_profile.role != Role::Regulator {
        return Err(SupplyChainError::InvalidRole);
    }
    if !issuer_profile.is_approved {
        return Err(SupplyChainError::UserNotApproved);
    }
    if !issuer.equals(&issuer_profile.user_wallet) {
        return Err(SupplyChainError::WalletMismatch);
    }
    if !batch.compliance.cold_chain_compliant {
        return Err(SupplyChainError::BatchNotCompliant);
    }
    if digest_is_zero(&cert_hash) {
        return Err(SupplyChainError::InvalidDetailsHash);
    }
    if !text_is_bounded(cert_cid.as_str(), CERTIFICATION_CID_LENGTH) {
        return Err(SupplyChainError::InvalidDetailsCid);
    }
    if !text_is_bounded(cert_type.as_str(), CERTIFICATION_TYPE_LENGTH) {
        return Err(SupplyChainError::InvalidCertificationType);
    }
    let cert_event = Event {
        event_type: EventType::ComplianceCheck,
        timestamp: now,
        from_wallet: issuer,
        to_wallet: issuer,
        details_hash: cert_hash,
        details_cid: cert_cid.clone(),
    };
    append_event(batch, cert_event)?;
    batch.compliance.certification_issued = true;
    Ok(
        Certification {
            batch_id: batch.id.clone(),
            cert_type,
            issuer,
            issue_data: now,
            cert_hash,
            cert_cid,
            valid: true,
        },
    )
}

} // verus!
