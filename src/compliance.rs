use vstd::prelude::*;

use crate::batch::is_actor_entry;
use crate::errors::SupplyChainError;
use crate::event_log::{append_event, has_room};
use crate::state::{
    Batch, BatchStatus, ComplianceFlagsStruct, Event, EventType, IoTSummaryStruct, Pubkey, Role,
    SystemConfig, UserProfile, IOT_FRESHNESS_WINDOW,
};

verus! {

/// A summary exceeds a batch's temperature or humidity limit.
pub open spec fn summary_breaks_threshold(s: IoTSummaryStruct, b: Batch) -> bool {
    s.max_temp > b.threshold.max_temp || s.max_humidity > b.threshold.max_humidity
}

/// The batch's latest telemetry exceeds its limits.
pub open spec fn compliance_fails(b: Batch) -> bool {
    summary_breaks_threshold(b.iot_summary, b)
}

/// How many log entries an evaluation of `b` appends.
pub open spec fn evaluation_entries(b: Batch) -> nat {
    if compliance_fails(b) {
        1
    } else {
        0
    }
}

/// The batch after an evaluation, the event log set apart.
pub open spec fn evaluated_batch(b: Batch, events: Vec<Event>) -> Batch {
    if compliance_fails(b) {
        Batch {
            status: BatchStatus::Flagged,
            compliance: ComplianceFlagsStruct { cold_chain_compliant: false, ..b.compliance },
            events,
            ..b
        }
    } else {
        Batch {
            status: BatchStatus::Compliant,
            compliance: ComplianceFlagsStruct { certification_issued: true, ..b.compliance },
            events,
            ..b
        }
    }
}

/// A digest of 32 zero bytes.
pub open spec fn zero_hash() -> Seq<u8> {
    Seq::new(32, |i: int| 0u8)
}

/// Compares the batch's latest telemetry with its limits. Over a limit, the
/// batch is flagged, loses its cold-chain compliance, and a compliance event
/// by `caller_wallet` enters the log; within them, it is compliant and
/// marked certified.
pub fn evaluate_compliance(batch: &mut Batch, caller_wallet: Pubkey, timestamp: i64) -> (r: Result<
    (),
    SupplyChainError,
>)
    requires
        old(batch).wf(),
    ensures
        final(batch).wf(),
        has_room(*old(batch), evaluation_entries(*old(batch))) ==> r is Ok,
        match r {
            Ok(()) => {
                &&& final(batch).events@.len() == old(batch).events@.len() + evaluation_entries(
                    *old(batch),
                )
                &&& final(batch).events@.subrange(0, old(batch).events@.len() as int) == old(
                    batch,
                ).events@
                &&& compliance_fails(*old(batch)) ==> is_actor_entry(
                    final(batch).events@.last(),
                    EventType::ComplianceCheck,
                    timestamp,
                    caller_wallet,
                    zero_hash(),
                    Seq::empty(),
                )
                &&& *final(batch) == evaluated_batch(*old(batch), final(batch).events)
            },
            Err(e) => {
                &&& !has_room(*old(batch), evaluation_entries(*old(batch)))
                &&& e == SupplyChainError::TooManyEvents
                &&& *final(batch) == *old(batch)
            },
        },
{
    let fails = batch.iot_summary.max_temp > batch.threshold.max_temp
        || batch.iot_summary.max_humidity > batch.threshold.max_humidity;
    if fails {
        let compliance_event = Event {
            event_type: EventType::ComplianceCheck,
            timestamp,
            from_wallet: caller_wallet,
            to_wallet: caller_wallet,
            details_hash: [0u8; 32],
            details_cid: String::new(),
        };
        append_event(batch, compliance_event)?;
        batch.compliance.cold_chain_compliant = false;
        batch.status = BatchStatus::Flagged;
        assert(final(batch).events@.last().details_hash@ =~= zero_hash());
    } else {
        batch.compliance.certification_issued = true;
        batch.status = BatchStatus::Compliant;
    }
    assert(batch.events@.subrange(0, old(batch).events@.len() as int) =~= old(batch).events@);
    Ok(())
}

/// The first check that an explicit compliance check fails, if any.
pub open spec fn check_compliance_error(
    batch: Batch,
    caller_profile: UserProfile,
    caller: Pubkey,
    config: SystemConfig,
    now: i64,
) -> Option<SupplyChainError> {
    if !(caller_profile.role == Role::Regulator || caller == config.oracle_wallet) {
        Some(SupplyChainError::InvalidRole)
    } else if caller_profile.role == Role::Regulator && !caller_profile.is_approved {
        Some(SupplyChainError::UserNotApproved)
    } else if !(caller == caller_profile.user_wallet || caller == config.oracle_wallet) {
        Some(SupplyChainError::WalletMismatch)
    } else if now - batch.iot_summary.timestamp > IOT_FRESHNESS_WINDOW {
        Some(SupplyChainError::StaleIoTData)
    } else if !has_room(batch, evaluation_entries(batch)) {
        Some(SupplyChainError::TooManyEvents)
    } else {
        None
    }
}

/// A regulator or the oracle re-evaluates a batch's compliance from its
/// stored telemetry, which must be at most an hour older than `now`.
pub fn check_compliance(
    batch: &mut Batch,
    caller_profile: &UserProfile,
    caller: Pubkey,
    system_config: &SystemConfig,
    now: i64,
) -> (r: Result<(), SupplyChainError>)
    requires
        old(batch).wf(),
    ensures
        final(batch).wf(),
        match r {
            Ok(()) => {
                &&& check_compliance_error(
                    *old(batch),
                    *caller_profile,
                    caller,
                    *system_config,
                    now,
                ) is None
                &&& final(batch).events@.len() == old(batch).events@.len() + evaluation_entries(
                    *old(batch),
                )
                &&& final(batch).events@.subrange(0, old(batch).events@.len() as int) == old(
                    batch,
                ).events@
                &&& compliance_fails(*old(batch)) ==> is_actor_entry(
                    final(batch).events@.last(),
                    EventType::ComplianceCheck,
                    now,
                    caller,
                    zero_hash(),
                    Seq::empty(),
                )
                &&& *final(batch) == evaluated_batch(*old(batch), final(batch).events)
            },
            Err(e) => {
                &&& check_compliance_error(
                    *old(batch),
                    *caller_profile,
                    caller,
                    *system_config,
                    now,
                ) == Some(e)
                &&& *final(batch) == *old(batch)
            },
        },
{
    let is_regulator = caller_profile.role == Role::Regulator;
    let is_oracle = caller.equals(&system_config.oracle_wallet);
    if !(is_regulator || is_oracle) {
        return Err(SupplyChainError::InvalidRole);
    }
    if is_regulator && !caller_profile.is_approved {
        return Err(SupplyChainError::UserNotApproved);
    }
    if !(caller.equals(&caller_profile.user_wallet) || is_oracle) {
        return Err(SupplyChainError::WalletMismatch);
    }
    let age: i128 = now as i128 - batch.iot_summary.timestamp as i128;
    if age > IOT_FRESHNESS_WINDOW as i128 {
        return Err(SupplyChainError::StaleIoTData);
    }
    evaluate_compliance(batch, caller, now)
}

} // verus!
