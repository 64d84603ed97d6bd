use vstd::prelude::*;

use crate::batch::is_actor_entry;
use crate::compliance::{evaluate_compliance, summary_breaks_threshold, zero_hash};
use crate::errors::SupplyChainError;
use crate::event_log::{append_event, has_room};
use crate::state::{
    bounded_text, digest_is_zero, increment_saturating, is_zero_digest, saturating_inc,
    text_is_bounded, Batch, BatchStatus, ComplianceFlagsStruct, Event, EventType,
    IoTSummaryStruct, Pubkey, SystemConfig, IOT_CID_LENGTH,
};

verus! {

/// How many log entries an accepted summary appends: none without a breach;
/// with one, a breach event, and a compliance event if the summary exceeds
/// the batch's limits.
pub open spec fn iot_update_entries(b: Batch, summary: IoTSummaryStruct) -> nat {
    if !summary.breach_detected {
        0
    } else if summary_breaks_threshold(summary, b) {
        2
    } else {
        1
    }
}

/// The first check that a telemetry update fails, if any.
pub open spec fn update_iot_summary_error(
    batch: Batch,
    oracle: Pubkey,
    config: SystemConfig,
    summary: IoTSummaryStruct,
    new_hash: [u8; 32],
    new_cid: Seq<char>,
) -> Option<SupplyChainError> {
    if oracle != config.oracle_wallet {
        Some(SupplyChainError::UnauthorizedOracle)
    } else if summary.timestamp <= batch.iot_summary.timestamp {
        Some(SupplyChainError::InvalidTimestamp)
    } else if summary.min_temp > summary.max_temp {
        Some(SupplyChainError::InvalidTemperatureRange)
    } else if is_zero_digest(new_hash) {
        Some(SupplyChainError::InvalidDetailsHash)
    } else if !bounded_text(new_cid, IOT_CID_LENGTH as nat) {
        Some(SupplyChainError::InvalidDetailsCid)
    } else if batch.status == BatchStatus::Recalled {
        Some(SupplyChainError::BatchNotCompliant)
    } else if !has_room(batch, iot_update_entries(batch, summary)) {
        Some(SupplyChainError::TooManyEvents)
    } else {
        None
    }
}

/// The batch after an accepted telemetry update, the event log set apart.
pub open spec fn iot_updated_batch(
    b: Batch,
    summary: IoTSummaryStruct,
    new_hash: [u8; 32],
    new_cid: String,
    events: Vec<Event>,
) -> Batch {
    if !summary.breach_detected {
        Batch { iot_summary: summary, iot_hash: new_hash, iot_cid: new_cid, events, ..b }
    } else {
        let breaks = summary_breaks_threshold(summary, b);
        Batch {
            iot_summary: IoTSummaryStruct {
                breach_count: saturating_inc(summary.breach_count),
                ..summary
            },
            iot_hash: new_hash,
            iot_cid: new_cid,
            status: if breaks {
                BatchStatus::Flagged
            } else {
                BatchStatus::Compliant
            },
            compliance: ComplianceFlagsStruct {
                cold_chain_compliant: false,
                certification_issued: if breaks {
                    b.compliance.certification_issued
                } else {
                    true
                },
                ..b.compliance
            },
            events,
            ..b
        }
    }
}

/// The oracle replaces a batch's telemetry summary with a strictly newer
/// one. A summary that reports a breach bumps the breach count, breaks the
/// cold chain, logs a breach event and re-evaluates compliance at once.
pub fn update_iot_summary(
    batch: &mut Batch,
    oracle: Pubkey,
    system_config: &SystemConfig,
    summary: IoTSummaryStruct,
    new_hash: [u8; 32],
    new_cid: String,
    now: i64,
) -> (r: Result<(), SupplyChainError>)
    requires
        old(batch).wf(),
    ensures
        final(batch).wf(),
        match r {
            Ok(()) => {
                let n = old(batch).events@.len();
                &&& update_iot_summary_error(
                    *old(batch),
                    oracle,
                    *system_config,
                    summary,
                    new_hash,
                    new_cid@,
                ) is None
                &&& final(batch).events@.len() == n + iot_update_entries(*old(batch), summary)
                &&& final(batch).events@.subrange(0, n as int) == old(batch).events@
                &&& summary.breach_detected ==> is_actor_entry(
                    final(batch).events@[n as int],
                    EventType::BreachDetected,
                    now,
                    oracle,
                    zero_hash(),
                    Seq::empty(),
                )
                &&& summary.breach_detected && summary_breaks_threshold(summary, *old(batch))
                    ==> is_actor_entry(
                    final(batch).events@[n + 1 as int],
                    EventType::ComplianceCheck,
                    now,
                    oracle,
                    zero_hash(),
                    Seq::empty(),
                )
                &&& *final(batch) == iot_updated_batch(
                    *old(batch),
                    summary,
                    new_hash,
                    new_cid,
                    final(batch).events,
                )
            },
            Err(e) => {
                &&& update_iot_summary_error(
                    *old(batch),
                    oracle,
                    *system_config,
                    summary,
                    new_hash,
                    new_cid@,
                ) == Some(e)
                &&& *final(batch) == *old(batch)
            },
        },
{
    if !oracle.equals(&system_config.oracle_wallet) {
        return Err(SupplyChainError::UnauthorizedOracle);
    }
    if summary.timestamp <= batch.iot_summary.timestamp {
        return Err(SupplyChainError::InvalidTimestamp);
    }
    if summary.min_temp > summary.max_temp {
        return Err(SupplyChainError::InvalidTemperatureRange);
    }
    if digest_is_zero(&new_hash) {
        return Err(SupplyChainError::InvalidDetailsHash);
    }
    if !text_is_bounded(new_cid.as_str(), IOT_CID_LENGTH) {
        return Err(SupplyChainError::InvalidDetailsCid);
    }
    if batch.status == BatchStatus::Recalled {
        return Err(SupplyChainError::BatchNotCompliant);
    }
    let breach = summary.breach_detected;
    let breaks = summary.max_temp > batch.threshold.max_temp || summary.max_humidity
        > batch.threshold.max_humidity;
    let needed: usize = if !breach {
        0
    } else if breaks {
        2
    } else {
        1
    };
    if batch.events.len() + needed > crate::state::EVENT_LENGTH {
        return Err(SupplyChainError::TooManyEvents);
    }
    let ghost n = old(batch).events@.len();
    batch.iot_summary = summary;
    batch.iot_hash = new_hash;
    batch.iot_cid = new_cid;
    if breach {
        batch.iot_summary.breach_count = increment_saturating(batch.iot_summary.breach_count);
        batch.status = BatchStatus::Flagged;
        batch.compliance.cold_chain_compliant = false;
        let breach_event = Event {
            event_type: EventType::BreachDetected,
            timestamp: now,
            from_wallet: oracle,
            to_wallet: oracle,
            details_hash: [0u8; 32],
            details_cid: String::new(),
        };
        let appended = append_event(batch, breach_event);
        assert(appended is Ok);
        assert(batch.events@[n as int].details_hash@ =~= zero_hash());
        let ghost mid = batch.events@;
        let evaluated = evaluate_compliance(batch, system_config.oracle_wallet, now);
        assert(evaluated is Ok);
        assert(batch.events@[n as int] == mid[n as int]);
    }
    assert(batch.events@.subrange(0, n as int) =~= old(batch).events@);
    Ok(())
}

} // verus!
