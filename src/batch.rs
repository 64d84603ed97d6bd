use vstd::prelude::*;

use crate::errors::SupplyChainError;
use crate::event_log::{append_event, has_room};
use crate::events::BatchCreated;
use crate::state::{
    bounded_text, digest_is_zero, increment_saturating, is_zero_digest, saturating_inc,
    text_is_bounded, Batch, BatchStatus, ComplianceFlagsStruct, Event, EventType,
    IoTSummaryStruct, OriginDetails, Pubkey, Role, SystemConfig, UserProfile, BATCH_ID_LENGTH,
    METADATA_CID_LENGTH,
};
use crate::text::{classify_reason_text, flag_details_hash, flag_reason_hash, lower_of, reason_class};

verus! {

/// The first check that creating a batch fails, if any.
pub open spec fn create_batch_error(
    user_profile: UserProfile,
    user: Pubkey,
    batch_id: Seq<char>,
    origin_details: OriginDetails,
    metadata_hash: [u8; 32],
    metadata_cid: Seq<char>,
) -> Option<SupplyChainError> {
    if user_profile.role != Role::Producer {
        Some(SupplyChainError::InvalidRole)
    } else if !user_profile.is_approved {
        Some(SupplyChainError::UserNotApproved)
    } else if user_profile.user_wallet != user {
        Some(SupplyChainError::WalletMismatch)
    } else if origin_details.production_date <= 0 {
        Some(SupplyChainError::InvalidProductionDate)
    } else if !bounded_text(batch_id, BATCH_ID_LENGTH as nat) {
        Some(SupplyChainError::InvalidBatchId)
    } else if !bounded_text(metadata_cid, METADATA_CID_LENGTH as nat) {
        Some(SupplyChainError::InvalidMetadataCid)
    } else if is_zero_digest(metadata_hash) {
        Some(SupplyChainError::InvalidMetadataHash)
    } else {
        None
    }
}

/// A telemetry summary with nothing recorded yet.
pub open spec fn is_blank_summary(s: IoTSummaryStruct) -> bool {
    &&& s.timestamp == 0
    &&& s.min_temp == 0 && s.max_temp == 0 && s.avg_temp == 0
    &&& s.min_humidity == 0 && s.max_humidity == 0 && s.avg_humidity == 0
    &&& s.location_summary@.len() == 0
    &&& !s.breach_detected
    &&& s.breach_count == 0
}

/// A telemetry summary with nothing recorded yet.
pub fn blank_summary() -> (r: IoTSummaryStruct)
    ensures
        is_blank_summary(r),
{
    IoTSummaryStruct {
        timestamp: 0,
        min_temp: 0,
        max_temp: 0,
        avg_temp: 0,
        min_humidity: 0,
        max_humidity: 0,
        avg_humidity: 0,
        location_summary: String::new(),
        breach_detected: false,
        breach_count: 0,
    }
}

/// A producer creates a batch it owns, with an empty event log, blank
/// telemetry, zero thresholds and no compliance flag set.
pub fn create_batch(
    user_profile: &UserProfile,
    user: Pubkey,
    batch_id: String,
    origin_details: OriginDetails,
    metadata_hash: [u8; 32],
    metadata_cid: String,
    now: i64,
) -> (r: Result<(Batch, BatchCreated), SupplyChainError>)
    ensures
        match r {
            Ok((b, ev)) => {
                &&& create_batch_error(
                    *user_profile,
                    user,
                    batch_id@,
                    origin_details,
                    metadata_hash,
                    metadata_cid@,
                ) is None
                &&& b.wf()
                &&& b.id == batch_id
                &&& b.producer == user
                &&& b.current_owner == user
                &&& b.status == BatchStatus::Registered
                &&& b.origin_details == origin_details
                &&& b.metadata_hash == metadata_hash
                &&& b.metadata_cid == metadata_cid
                &&& b.events@.len() == 0
                &&& is_blank_summary(b.iot_summary)
                &&& is_zero_digest(b.iot_hash)
                &&& b.iot_cid@.len() == 0
                &&& b.threshold.max_temp == 0 && b.threshold.max_humidity == 0
                    && b.threshold.max_breach_duration == 0
                &&& b.compliance == (ComplianceFlagsStruct {
                    cold_chain_compliant: false,
                    fraud_detected: false,
                    certification_issued: false,
                })
                &&& ev.batch_id == batch_id && ev.producer == user && ev.timestamp == now
            },
            Err(e) => create_batch_error(
                *user_profile,
                user,
                batch_id@,
                origin_details,
                metadata_hash,
                metadata_cid@,
            ) == Some(e),
        },
{
    if user_profile.role != Role::Producer {
        return Err(SupplyChainError::InvalidRole);
    }
    if !user_profile.is_approved {
        return Err(SupplyChainError::UserNotApproved);
    }
    if !user_profile.user_wallet.equals(&user) {
        return Err(SupplyChainError::WalletMismatch);
    }
    if origin_details.production_date <= 0 {
        return Err(SupplyChainError::InvalidProductionDate);
    }
    if !text_is_bounded(batch_id.as_str(), BATCH_ID_LENGTH) {
        return Err(SupplyChainError::InvalidBatchId);
    }
    if !text_is_bounded(metadata_cid.as_str(), METADATA_CID_LENGTH) {
        return Err(SupplyChainError::InvalidMetadataCid);
    }
    if digest_is_zero(&metadata_hash) {
        return Err(SupplyChainError::InvalidMetadataHash);
    }
    let announced = BatchCreated { batch_id: batch_id.clone(), producer: user, timestamp: now };
    let batch = Batch {
        id: batch_id,
        producer: user,
        current_owner: user,
        status: BatchStatus::Registered,
        origin_details,
        metadata_hash,
        metadata_cid,
        events: Vec::new(),
        iot_summary: blank_summary(),
        iot_hash: [0u8; 32],
        iot_cid: String::new(),
        threshold: crate::state::thresholdStruct {
            max_temp: 0,
            max_humidity: 0,
            max_breach_duration: 0,
        },
        compliance: ComplianceFlagsStruct {
            cold_chain_compliant: false,
            fraud_detected: false,
            certification_issued: false,
        },
    };
    Ok((batch, announced))
}

/// Whether `caller` acts as an approved regulator, or as the oracle.
pub open spec fn regulator_or_oracle_error(
    caller_profile: UserProfile,
    caller: Pubkey,
    config: SystemConfig,
) -> Option<SupplyChainError> {
    if !(caller_profile.role == Role::Regulator || caller == config.oracle_wallet) {
        Some(SupplyChainError::InvalidRole)
    } else if caller_profile.role == Role::Regulator && !caller_profile.is_approved {
        Some(SupplyChainError::UserNotApproved)
    } else if caller_profile.role == Role::Regulator && caller != caller_profile.user_wallet {
        Some(SupplyChainError::WalletMismatch)
    } else {
        None
    }
}

/// The first check that flagging a batch fails, if any.
pub open spec fn flag_batch_error(
    batch: Batch,
    caller_profile: UserProfile,
    caller: Pubkey,
    config: SystemConfig,
    reason: Seq<char>,
) -> Option<SupplyChainError> {
    if regulator_or_oracle_error(caller_profile, caller, config) is Some {
        regulator_or_oracle_error(caller_profile, caller, config)
    } else if batch.status == BatchStatus::Recalled {
        Some(SupplyChainError::BatchAlreadyRecalled)
    } else if reason.len() == 0 {
        Some(SupplyChainError::EmptyReason)
    } else if !has_room(batch, 1) {
        Some(SupplyChainError::TooManyEvents)
    } else {
        None
    }
}

/// An event log entry made by `actor` alone, with the given kind, time,
/// digest and content identifier.
pub open spec fn is_actor_entry(
    e: Event,
    event_type: EventType,
    timestamp: i64,
    actor: Pubkey,
    details_hash: Seq<u8>,
    details_cid: Seq<char>,
) -> bool {
    &&& e.event_type == event_type
    &&& e.timestamp == timestamp
    &&& e.from_wallet == actor
    &&& e.to_wallet == actor
    &&& e.details_hash@ == details_hash
    &&& e.details_cid@ == details_cid
}

/// The batch after flagging it for a reason whose lower-case form
/// classifies as `class`; the event log is set apart.
pub open spec fn flagged_batch(b: Batch, lowered: Seq<char>, events: Vec<Event>) -> Batch {
    let class = reason_class(lowered);
    Batch {
        status: if class.severe {
            BatchStatus::Recalled
        } else {
            BatchStatus::Flagged
        },
        compliance: ComplianceFlagsStruct {
            cold_chain_compliant: if class.cold_chain_broken {
                false
            } else {
                b.compliance.cold_chain_compliant
            },
            fraud_detected: if class.fraud {
                true
            } else {
                b.compliance.fraud_detected
            },
            ..b.compliance
        },
        iot_summary: IoTSummaryStruct {
            breach_count: if class.counts_breach {
                saturating_inc(b.iot_summary.breach_count)
            } else {
                b.iot_summary.breach_count
            },
            ..b.iot_summary
        },
        events,
        ..b
    }
}

/// A regulator or the oracle flags a batch for `reason`: recalled when the
/// reason is severe, else flagged, with compliance flags and breach count
/// following the reason's keywords, and a breach event in the log.
pub fn flag_batch(
    batch: &mut Batch,
    caller_profile: &UserProfile,
    caller: Pubkey,
    system_config: &SystemConfig,
    reason: String,
    now: i64,
) -> (r: Result<(), SupplyChainError>)
    requires
        old(batch).wf(),
    ensures
        final(batch).wf(),
        match r {
            Ok(()) => {
                &&& flag_batch_error(
                    *old(batch),
                    *caller_profile,
                    caller,
                    *system_config,
                    reason@,
                ) is None
                &&& final(batch).events@.len() == old(batch).events@.len() + 1
                &&& final(batch).events@.drop_last() == old(batch).events@
                &&& is_actor_entry(
                    final(batch).events@.last(),
                    EventType::BreachDetected,
                    now,
                    caller,
                    flag_details_hash(reason@),
                    Seq::empty(),
                )
                &&& *final(batch) == flagged_batch(
                    *old(batch),
                    lower_of(reason@),
                    final(batch).events,
                )
            },
            Err(e) => {
                &&& flag_batch_error(
                    *old(batch),
                    *caller_profile,
                    caller,
                    *system_config,
                    reason@,
                ) == Some(e)
                &&& *final(batch) == *old(batch)
            },
        },
{
    let is_regulator = caller_profile.role == Role::Regulator;
    if !(is_regulator || caller.equals(&system_config.oracle_wallet)) {
        return Err(SupplyChainError::InvalidRole);
    }
    if is_regulator {
        if !caller_profile.is_approved {
            return Err(SupplyChainError::UserNotApproved);
        }
        if !caller.equals(&caller_profile.user_wallet) {
            return Err(SupplyChainError::WalletMismatch);
        }
    }
    if batch.status == BatchStatus::Recalled {
        return Err(SupplyChainError::BatchAlreadyRecalled);
    }
    if reason.as_str().is_empty() {
        return Err(SupplyChainError::EmptyReason);
    }
    let class = classify_reason_text(reason.as_str());
    let details_hash = flag_reason_hash(reason.as_str());
    let flag_event = Event {
        event_type: EventType::BreachDetected,
        timestamp: now,
        from_wallet: caller,
        to_wallet: caller,
        details_hash,
        details_cid: String::new(),
    };
    append_event(batch, flag_event)?;
    if class.severe {
        batch.status = BatchStatus::Recalled;
    } else {
        batch.status = BatchStatus::Flagged;
    }
    if class.cold_chain_broken {
        batch.compliance.cold_chain_compliant = false;
    }
    if class.fraud {
        batch.compliance.fraud_detected = true;
    }
    if class.counts_breach {
        batch.iot_summary.breach_count = increment_saturating(batch.iot_summary.breach_count);
    }
    Ok(())
}

} // verus!
