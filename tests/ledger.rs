use supply_chain::batch::{create_batch, flag_batch};
use supply_chain::certification::issue_certification;
use supply_chain::compliance::{check_compliance, evaluate_compliance};
use supply_chain::config::intialize_config;
use supply_chain::errors::{CustomError, ErrorKind, SupplyChainError};
use supply_chain::event_log::append_event;
use supply_chain::handover::{log_handover, recipient_status, validate_role_transition};
use supply_chain::iot::update_iot_summary;
use supply_chain::state::{
    Batch, BatchStatus, Event, EventType, IoTSummaryStruct, OriginDetails, Pubkey, Role,
    SystemConfig, UserProfile, EVENT_LENGTH,
};
use supply_chain::user::{approve_user, register_user};

fn key(n: u8) -> Pubkey {
    Pubkey { bytes: [n; 32] }
}

fn digest(n: u8) -> [u8; 32] {
    [n; 32]
}

const ADMIN: u8 = 1;
const ORACLE: u8 = 2;

fn config() -> SystemConfig {
    let mut c = SystemConfig { is_initialized: false, admin_wallet: key(0), oracle_wallet: key(0) };
    intialize_config(&mut c, key(99), key(ADMIN), key(ORACLE)).unwrap();
    c
}

fn approved(n: u8, role: Role) -> UserProfile {
    let cfg = config();
    let mut slot = None;
    register_user(&mut slot, key(n), digest(n), 10).unwrap();
    let mut p = slot.unwrap();
    approve_user(&mut p, key(ADMIN), &cfg, role).unwrap();
    p
}

fn origin() -> OriginDetails {
    OriginDetails {
        production_date: 100,
        quantity: 10,
        weight: 2500,
        product_type: "milk".to_string(),
    }
}

fn new_batch(producer: &UserProfile, id: &str) -> Batch {
    let (b, _) = create_batch(
        producer,
        producer.user_wallet,
        id.to_string(),
        origin(),
        digest(7),
        "cid1".to_string(),
        50,
    )
    .unwrap();
    b
}

fn filler_event() -> Event {
    Event {
        event_type: EventType::StorageUpdate,
        timestamp: 1,
        from_wallet: key(3),
        to_wallet: key(3),
        details_hash: digest(1),
        details_cid: String::new(),
    }
}

fn summary(ts: i64, min_temp: i32, max_temp: i32, max_humidity: i32, breach: bool) -> IoTSummaryStruct {
    IoTSummaryStruct {
        timestamp: ts,
        min_temp,
        max_temp,
        avg_temp: min_temp,
        min_humidity: 0,
        max_humidity,
        avg_humidity: 0,
        location_summary: "warehouse".to_string(),
        breach_detected: breach,
        breach_count: 0,
    }
}

#[test]
fn scenario_register_approve_create() {
    let cfg = config();
    let mut slot = None;
    let ev = register_user(&mut slot, key(10), digest(10), 5).unwrap();
    assert_eq!(ev.role, Role::Unassigned);
    assert!(!ev.is_approved);
    let mut u = slot.unwrap();
    assert_eq!(u.role, Role::Unassigned);
    approve_user(&mut u, key(ADMIN), &cfg, Role::Producer).unwrap();
    assert_eq!(u.role, Role::Producer);
    assert!(u.is_approved);
    let (b, created) = create_batch(&u, key(10), "B1".to_string(), origin(), digest(7), "cid1".to_string(), 77)
        .unwrap();
    assert_eq!(b.id, "B1");
    assert_eq!(b.status, BatchStatus::Registered);
    assert_eq!(b.current_owner, key(10));
    assert_eq!(b.producer, key(10));
    assert!(b.events.is_empty());
    assert_eq!(created.batch_id, "B1");
    assert_eq!(created.timestamp, 77);
}

#[test]
fn scenario_handover_to_retailer() {
    let u = approved(10, Role::Producer);
    let v = approved(11, Role::Retailer);
    let mut b = new_batch(&u, "B1");
    let ev = log_handover(&mut b, &u, &v, key(10), key(11), key(11), digest(5), "hcid".to_string(), 60)
        .unwrap();
    assert_eq!(b.current_owner, key(11));
    assert_eq!(b.status, BatchStatus::Sold);
    assert_eq!(b.events.len(), 1);
    assert_eq!(b.events[0].event_type, EventType::HandOver);
    assert_eq!(b.events[0].from_wallet, key(10));
    assert_eq!(b.events[0].to_wallet, key(11));
    assert_eq!(ev.from_wallet, key(10));
    assert_eq!(ev.batch_id, "B1");
}

#[test]
fn scenario_iot_breach_flags_batch() {
    let u = approved(10, Role::Producer);
    let cfg = config();
    let mut b = new_batch(&u, "B1");
    b.threshold.max_temp = 5;
    b.threshold.max_humidity = 100;
    b.compliance.cold_chain_compliant = true;
    let mut s = summary(200, 1, 10, 50, true);
    s.breach_count = 3;
    update_iot_summary(&mut b, key(ORACLE), &cfg, s, digest(4), "iotcid".to_string(), 300).unwrap();
    assert_eq!(b.status, BatchStatus::Flagged);
    assert!(!b.compliance.cold_chain_compliant);
    assert_eq!(b.iot_summary.breach_count, 4);
    assert_eq!(b.events.len(), 2);
    assert_eq!(b.events[0].event_type, EventType::BreachDetected);
    assert_eq!(b.events[1].event_type, EventType::ComplianceCheck);
    assert_eq!(b.events[1].from_wallet, key(ORACLE));
    assert_eq!(b.iot_cid, "iotcid");
}

#[test]
fn iot_breach_within_limits_ends_compliant() {
    let u = approved(10, Role::Producer);
    let cfg = config();
    let mut b = new_batch(&u, "B1");
    b.threshold.max_temp = 50;
    b.threshold.max_humidity = 100;
    update_iot_summary(&mut b, key(ORACLE), &cfg, summary(200, 1, 10, 50, true), digest(4), "c".to_string(), 300)
        .unwrap();
    assert_eq!(b.status, BatchStatus::Compliant);
    assert!(!b.compliance.cold_chain_compliant);
    assert!(b.compliance.certification_issued);
    assert_eq!(b.events.len(), 1);
    assert_eq!(b.iot_summary.breach_count, 1);
}

#[test]
fn iot_without_breach_only_stores_summary() {
    let u = approved(10, Role::Producer);
    let cfg = config();
    let mut b = new_batch(&u, "B1");
    update_iot_summary(&mut b, key(ORACLE), &cfg, summary(200, 1, 10, 50, false), digest(4), "c".to_string(), 300)
        .unwrap();
    assert_eq!(b.status, BatchStatus::Registered);
    assert_eq!(b.iot_summary.timestamp, 200);
    assert_eq!(b.iot_hash, digest(4));
    assert!(b.events.is_empty());
}

#[test]
fn scenario_certification_needs_compliance() {
    let u = approved(10, Role::Producer);
    let reg = approved(20, Role::Regulator);
    let mut b = new_batch(&u, "B1");
    b.compliance.cold_chain_compliant = false;
    let before = b.clone();
    let r = issue_certification(&mut b, &reg, key(20), "organic".to_string(), digest(6), "certcid".to_string(), 90);
    assert_eq!(r, Err(SupplyChainError::BatchNotCompliant));
    assert_eq!(r.unwrap_err().kind(), ErrorKind::StateConflict);
    assert_eq!(b, before);
}

#[test]
fn certification_issued_for_compliant_batch() {
    let u = approved(10, Role::Producer);
    let reg = approved(20, Role::Regulator);
    let mut b = new_batch(&u, "B1");
    b.compliance.cold_chain_compliant = true;
    let cert = issue_certification(&mut b, &reg, key(20), "organic".to_string(), digest(6), "certcid".to_string(), 90)
        .unwrap();
    assert_eq!(cert.batch_id, "B1");
    assert_eq!(cert.cert_type, "organic");
    assert_eq!(cert.issuer, key(20));
    assert_eq!(cert.issue_data, 90);
    assert!(cert.valid);
    assert!(b.compliance.certification_issued);
    assert_eq!(b.events.len(), 1);
    assert_eq!(b.events[0].event_type, EventType::ComplianceCheck);
    assert_eq!(b.events[0].details_hash, digest(6));
    assert_eq!(b.events[0].details_cid, "certcid");
}

#[test]
fn scenario_severe_reason_recalls() {
    let u = approved(10, Role::Producer);
    let reg = approved(20, Role::Regulator);
    let cfg = config();
    let mut b = new_batch(&u, "B1");
    b.compliance.cold_chain_compliant = true;
    flag_batch(&mut b, &reg, key(20), &cfg, "severe temperature breach".to_string(), 70).unwrap();
    assert_eq!(b.status, BatchStatus::Recalled);
    assert!(!b.compliance.cold_chain_compliant);
    assert!(!b.compliance.fraud_detected);
    assert_eq!(b.iot_summary.breach_count, 1);
    assert_eq!(b.events.len(), 1);
    assert_eq!(b.events[0].event_type, EventType::BreachDetected);
    let mut expected = [0u8; 32];
    expected[..25].copy_from_slice(b"severe temperature breach");
    assert_eq!(b.events[0].details_hash, expected);
    let again = flag_batch(&mut b, &reg, key(20), &cfg, "fraud".to_string(), 71);
    assert_eq!(again, Err(SupplyChainError::BatchAlreadyRecalled));
}

#[test]
fn flag_keywords_ignore_case() {
    let u = approved(10, Role::Producer);
    let cfg = config();
    let mut b = new_batch(&u, "B1");
    b.compliance.cold_chain_compliant = true;
    let oracle_profile = approved(ORACLE, Role::Unassigned);
    flag_batch(&mut b, &oracle_profile, key(ORACLE), &cfg, "Suspected FRAUD".to_string(), 70).unwrap();
    assert_eq!(b.status, BatchStatus::Flagged);
    assert!(b.compliance.fraud_detected);
    assert!(b.compliance.cold_chain_compliant);
    assert_eq!(b.iot_summary.breach_count, 0);
    let mut c = new_batch(&u, "B2");
    flag_batch(&mut c, &oracle_profile, key(ORACLE), &cfg, "CRITICAL cold chain".to_string(), 70).unwrap();
    assert_eq!(c.status, BatchStatus::Recalled);
}

#[test]
fn flag_long_reason_embeds_hash() {
    let u = approved(10, Role::Producer);
    let reg = approved(20, Role::Regulator);
    let cfg = config();
    let mut b = new_batch(&u, "B1");
    let reason = "a reason that is longer than thirty-two bytes in all".to_string();
    flag_batch(&mut b, &reg, key(20), &cfg, reason.clone(), 70).unwrap();
    let mut hasher = std::collections::hash_map::DefaultHasher::new();
    std::hash::Hash::hash(&reason, &mut hasher);
    let h = std::hash::Hasher::finish(&hasher).to_le_bytes();
    let mut expected = [0u8; 32];
    expected[..8].copy_from_slice(&h);
    assert_eq!(b.events[0].details_hash, expected);
    assert_ne!(&b.events[0].details_hash[..8], &reason.as_bytes()[..8]);
}

#[test]
fn flag_rejects_empty_reason_and_outsiders() {
    let u = approved(10, Role::Producer);
    let reg = approved(20, Role::Regulator);
    let cfg = config();
    let mut b = new_batch(&u, "B1");
    assert_eq!(flag_batch(&mut b, &reg, key(20), &cfg, String::new(), 1), Err(SupplyChainError::EmptyReason));
    assert_eq!(flag_batch(&mut b, &u, key(10), &cfg, "x".to_string(), 1), Err(SupplyChainError::InvalidRole));
    assert_eq!(flag_batch(&mut b, &reg, key(21), &cfg, "x".to_string(), 1), Err(SupplyChainError::WalletMismatch));
    assert!(b.events.is_empty());
}

#[test]
fn event_log_capacity_is_enforced() {
    let u = approved(10, Role::Producer);
    let mut b = new_batch(&u, "B1");
    for _ in 0..EVENT_LENGTH {
        append_event(&mut b, filler_event()).unwrap();
    }
    assert_eq!(b.events.len(), EVENT_LENGTH);
    let before = b.clone();
    let r = append_event(&mut b, filler_event());
    assert_eq!(r, Err(SupplyChainError::TooManyEvents));
    assert_eq!(r.unwrap_err().kind(), ErrorKind::Capacity);
    assert_eq!(b, before);
}

#[test]
fn handover_on_full_log_fails_unchanged() {
    let u = approved(10, Role::Producer);
    let v = approved(11, Role::Processor);
    let mut b = new_batch(&u, "B1");
    for _ in 0..EVENT_LENGTH {
        append_event(&mut b, filler_event()).unwrap();
    }
    let before = b.clone();
    let r = log_handover(&mut b, &u, &v, key(10), key(11), key(11), digest(5), "h".to_string(), 60);
    assert_eq!(r, Err(SupplyChainError::TooManyEvents));
    assert_eq!(b, before);
}

#[test]
fn role_transition_table() {
    let roles = [
        Role::Unassigned,
        Role::Producer,
        Role::Processor,
        Role::Distributor,
        Role::Retailer,
        Role::Consumer,
        Role::Regulator,
        Role::Administrator,
    ];
    let legal = [
        (Role::Producer, Role::Processor),
        (Role::Producer, Role::Distributor),
        (Role::Producer, Role::Retailer),
        (Role::Processor, Role::Distributor),
        (Role::Processor, Role::Retailer),
        (Role::Distributor, Role::Retailer),
    ];
    for from in roles {
        for to in roles {
            let r = validate_role_transition(&from, &to);
            if legal.contains(&(from, to)) {
                assert_eq!(r, Ok(()));
            } else {
                assert_eq!(r, Err(SupplyChainError::InvalidRoleTransition));
                assert_eq!(SupplyChainError::InvalidRoleTransition.kind(), ErrorKind::StateConflict);
            }
        }
    }
}

#[test]
fn handover_illegal_roles_refused() {
    let u = approved(10, Role::Producer);
    let c = approved(12, Role::Consumer);
    let mut b = new_batch(&u, "B1");
    let r = log_handover(&mut b, &u, &c, key(10), key(12), key(12), digest(5), "h".to_string(), 60);
    assert_eq!(r, Err(SupplyChainError::InvalidRoleTransition));
    assert_eq!(b.current_owner, key(10));
    let d = approved(13, Role::Distributor);
    log_handover(&mut b, &u, &d, key(10), key(13), key(13), digest(5), "h".to_string(), 61).unwrap();
    assert_eq!(b.status, BatchStatus::InTransit);
    let r2 = log_handover(&mut b, &d, &c, key(13), key(12), key(12), digest(5), "h".to_string(), 62);
    assert_eq!(r2, Err(SupplyChainError::InvalidRoleTransition));
}

#[test]
fn handover_status_follows_recipient() {
    assert_eq!(recipient_status(&Role::Processor), BatchStatus::InProcessing);
    assert_eq!(recipient_status(&Role::Distributor), BatchStatus::InTransit);
    assert_eq!(recipient_status(&Role::Retailer), BatchStatus::Sold);
    assert_eq!(recipient_status(&Role::Consumer), BatchStatus::Sold);
    assert_eq!(recipient_status(&Role::Regulator), BatchStatus::InTransit);
}

#[test]
fn handover_checks() {
    let u = approved(10, Role::Producer);
    let v = approved(11, Role::Processor);
    let mut b = new_batch(&u, "B1");
    let r = log_handover(&mut b, &u, &v, key(11), key(11), key(11), digest(5), "h".to_string(), 60);
    assert_eq!(r, Err(SupplyChainError::NotCurrentOwner));
    let r = log_handover(&mut b, &u, &v, key(10), key(11), key(11), digest(0), "h".to_string(), 60);
    assert_eq!(r, Err(SupplyChainError::InvalidDetailsHash));
    let r = log_handover(&mut b, &u, &v, key(10), key(11), key(11), digest(5), String::new(), 60);
    assert_eq!(r, Err(SupplyChainError::InvalidDetailsCid));
    let r = log_handover(&mut b, &u, &v, key(10), key(11), key(11), digest(5), "x".repeat(65), 60);
    assert_eq!(r, Err(SupplyChainError::InvalidDetailsCid));
    let r = log_handover(&mut b, &u, &v, key(10), key(12), key(11), digest(5), "h".to_string(), 60);
    assert_eq!(r, Err(SupplyChainError::WalletMismatch));
    b.status = BatchStatus::Flagged;
    let r = log_handover(&mut b, &u, &v, key(10), key(11), key(11), digest(5), "h".to_string(), 60);
    assert_eq!(r, Err(SupplyChainError::BatchNotCompliant));
    let mut unapproved = v;
    unapproved.is_approved = false;
    let r = log_handover(&mut b, &u, &unapproved, key(10), key(11), key(11), digest(5), "h".to_string(), 60);
    assert_eq!(r, Err(SupplyChainError::UserNotApproved));
    b.status = BatchStatus::Registered;
    log_handover(&mut b, &u, &v, key(10), key(11), key(11), digest(5), "x".repeat(64), 60).unwrap();
    assert_eq!(b.status, BatchStatus::InProcessing);
}

#[test]
fn config_initializes_once() {
    let mut c = SystemConfig { is_initialized: false, admin_wallet: key(0), oracle_wallet: key(0) };
    let ev = intialize_config(&mut c, key(99), key(ADMIN), key(ORACLE)).unwrap();
    assert_eq!(ev.config, key(99));
    assert!(c.is_initialized);
    assert_eq!(c.admin_wallet, key(ADMIN));
    let r = intialize_config(&mut c, key(99), key(ADMIN), key(ORACLE));
    assert_eq!(r, Err(CustomError::AlreadyInitialized));
    assert_eq!(r.unwrap_err().kind(), ErrorKind::StateConflict);
    assert_eq!(c.oracle_wallet, key(ORACLE));
}

#[test]
fn config_rejects_bad_wallets() {
    let mut c = SystemConfig { is_initialized: false, admin_wallet: key(0), oracle_wallet: key(0) };
    assert_eq!(intialize_config(&mut c, key(99), key(0), key(2)), Err(CustomError::InvalidWallet));
    assert_eq!(intialize_config(&mut c, key(99), key(1), key(0)), Err(CustomError::InvalidWallet));
    assert_eq!(intialize_config(&mut c, key(99), key(3), key(3)), Err(CustomError::InvalidWallet));
    assert_eq!(CustomError::InvalidWallet.kind(), ErrorKind::Validation);
    assert!(!c.is_initialized);
}

#[test]
fn user_registers_once() {
    let mut slot = None;
    register_user(&mut slot, key(10), digest(10), 5).unwrap();
    let r = register_user(&mut slot, key(10), digest(11), 6);
    assert_eq!(r, Err(CustomError::AlreadyRegistered));
    assert_eq!(r.unwrap_err().kind(), ErrorKind::StateConflict);
    assert_eq!(slot.unwrap().registered_at, 5);
    let mut empty = None;
    assert_eq!(register_user(&mut empty, key(10), digest(0), 5), Err(CustomError::InvalidWallet));
    assert!(empty.is_none());
}

#[test]
fn approval_rules() {
    let cfg = config();
    let mut slot = None;
    register_user(&mut slot, key(10), digest(10), 5).unwrap();
    let mut p = slot.unwrap();
    assert_eq!(approve_user(&mut p, key(5), &cfg, Role::Producer), Err(CustomError::Unauthorized));
    assert_eq!(approve_user(&mut p, key(ADMIN), &cfg, Role::Administrator), Err(CustomError::InvalidRole));
    assert!(!p.is_approved);
    approve_user(&mut p, key(ADMIN), &cfg, Role::Regulator).unwrap();
    assert_eq!(approve_user(&mut p, key(ADMIN), &cfg, Role::Producer), Err(CustomError::AlreadyApproved));
    assert_eq!(p.role, Role::Regulator);
}

#[test]
fn create_batch_validation() {
    let u = approved(10, Role::Producer);
    let r = approved(11, Role::Retailer);
    let mk = |p: &UserProfile, who: u8, id: &str, date: i64, h: u8, cid: &str| {
        let mut o = origin();
        o.production_date = date;
        create_batch(p, key(who), id.to_string(), o, digest(h), cid.to_string(), 1).map(|_| ())
    };
    assert_eq!(mk(&r, 11, "B", 1, 1, "c"), Err(SupplyChainError::InvalidRole));
    assert_eq!(mk(&u, 11, "B", 1, 1, "c"), Err(SupplyChainError::WalletMismatch));
    assert_eq!(mk(&u, 10, "B", 0, 1, "c"), Err(SupplyChainError::InvalidProductionDate));
    assert_eq!(mk(&u, 10, "", 1, 1, "c"), Err(SupplyChainError::InvalidBatchId));
    assert_eq!(mk(&u, 10, &"b".repeat(65), 1, 1, "c"), Err(SupplyChainError::InvalidBatchId));
    assert_eq!(mk(&u, 10, "B", 1, 1, ""), Err(SupplyChainError::InvalidMetadataCid));
    assert_eq!(mk(&u, 10, "B", 1, 0, "c"), Err(SupplyChainError::InvalidMetadataHash));
    assert_eq!(mk(&u, 10, &"b".repeat(64), 1, 1, &"c".repeat(128)), Ok(()));
    let mut unapproved = u;
    unapproved.is_approved = false;
    assert_eq!(mk(&unapproved, 10, "B", 1, 1, "c"), Err(SupplyChainError::UserNotApproved));
}

#[test]
fn iot_timestamp_must_increase() {
    let u = approved(10, Role::Producer);
    let cfg = config();
    let mut b = new_batch(&u, "B1");
    update_iot_summary(&mut b, key(ORACLE), &cfg, summary(200, 1, 2, 3, false), digest(4), "c".to_string(), 1).unwrap();
    let before = b.clone();
    let same = update_iot_summary(&mut b, key(ORACLE), &cfg, summary(200, 1, 2, 3, true), digest(4), "c".to_string(), 1);
    assert_eq!(same, Err(SupplyChainError::InvalidTimestamp));
    assert_eq!(same.unwrap_err().kind(), ErrorKind::Staleness);
    let older = update_iot_summary(&mut b, key(ORACLE), &cfg, summary(150, 9, 2, 3, false), digest(0), String::new(), 1);
    assert_eq!(older, Err(SupplyChainError::InvalidTimestamp));
    assert_eq!(b, before);
}

#[test]
fn iot_update_checks() {
    let u = approved(10, Role::Producer);
    let cfg = config();
    let mut b = new_batch(&u, "B1");
    let up = |b: &mut Batch, who: u8, s: IoTSummaryStruct, h: u8, cid: &str| {
        update_iot_summary(b, key(who), &cfg, s, digest(h), cid.to_string(), 1)
    };
    assert_eq!(up(&mut b, 3, summary(10, 1, 2, 3, false), 1, "c"), Err(SupplyChainError::UnauthorizedOracle));
    assert_eq!(up(&mut b, ORACLE, summary(10, 5, 2, 3, false), 1, "c"), Err(SupplyChainError::InvalidTemperatureRange));
    assert_eq!(up(&mut b, ORACLE, summary(10, 1, 2, 3, false), 0, "c"), Err(SupplyChainError::InvalidDetailsHash));
    assert_eq!(up(&mut b, ORACLE, summary(10, 1, 2, 3, false), 1, &"c".repeat(129)), Err(SupplyChainError::InvalidDetailsCid));
    b.status = BatchStatus::Recalled;
    assert_eq!(up(&mut b, ORACLE, summary(10, 1, 2, 3, false), 1, "c"), Err(SupplyChainError::BatchNotCompliant));
}

#[test]
fn iot_breach_needs_room_for_both_events() {
    let u = approved(10, Role::Producer);
    let cfg = config();
    let mut b = new_batch(&u, "B1");
    for _ in 0..EVENT_LENGTH - 1 {
        append_event(&mut b, filler_event()).unwrap();
    }
    let before = b.clone();
    let r = update_iot_summary(&mut b, key(ORACLE), &cfg, summary(10, 1, 20, 3, true), digest(1), "c".to_string(), 1);
    assert_eq!(r, Err(SupplyChainError::TooManyEvents));
    assert_eq!(b, before);
}

#[test]
fn compliance_check_by_regulator_and_oracle() {
    let u = approved(10, Role::Producer);
    let reg = approved(20, Role::Regulator);
    let cfg = config();
    let mut b = new_batch(&u, "B1");
    b.threshold.max_temp = 8;
    b.threshold.max_humidity = 80;
    b.iot_summary = summary(1000, 1, 5, 60, false);
    check_compliance(&mut b, &reg, key(20), &cfg, 4600).unwrap();
    assert_eq!(b.status, BatchStatus::Compliant);
    assert!(b.compliance.certification_issued);
    assert!(b.events.is_empty());
    b.iot_summary.max_humidity = 90;
    let oracle_profile = approved(ORACLE, Role::Unassigned);
    check_compliance(&mut b, &oracle_profile, key(ORACLE), &cfg, 1000).unwrap();
    assert_eq!(b.status, BatchStatus::Flagged);
    assert!(!b.compliance.cold_chain_compliant);
    assert_eq!(b.events.len(), 1);
    assert_eq!(b.events[0].event_type, EventType::ComplianceCheck);
    assert_eq!(b.events[0].details_hash, [0u8; 32]);
}

#[test]
fn compliance_check_rejections() {
    let u = approved(10, Role::Producer);
    let reg = approved(20, Role::Regulator);
    let cfg = config();
    let mut b = new_batch(&u, "B1");
    b.iot_summary = summary(1000, 1, 5, 60, false);
    assert_eq!(check_compliance(&mut b, &reg, key(20), &cfg, 4601), Err(SupplyChainError::StaleIoTData));
    assert_eq!(SupplyChainError::StaleIoTData.kind(), ErrorKind::Staleness);
    assert_eq!(check_compliance(&mut b, &u, key(10), &cfg, 1000), Err(SupplyChainError::InvalidRole));
    assert_eq!(check_compliance(&mut b, &reg, key(21), &cfg, 1000), Err(SupplyChainError::WalletMismatch));
    let mut unapproved = reg;
    unapproved.is_approved = false;
    assert_eq!(check_compliance(&mut b, &unapproved, key(20), &cfg, 1000), Err(SupplyChainError::UserNotApproved));
    assert_eq!(b.status, BatchStatus::Registered);
}

#[test]
fn evaluate_within_limits() {
    let u = approved(10, Role::Producer);
    let mut b = new_batch(&u, "B1");
    b.threshold.max_temp = 5;
    b.threshold.max_humidity = 5;
    b.iot_summary = summary(1, 0, 5, 5, false);
    evaluate_compliance(&mut b, key(3), 9).unwrap();
    assert_eq!(b.status, BatchStatus::Compliant);
    b.iot_summary.max_temp = 6;
    evaluate_compliance(&mut b, key(3), 9).unwrap();
    assert_eq!(b.status, BatchStatus::Flagged);
    assert_eq!(b.events[0].from_wallet, key(3));
    assert_eq!(b.events[0].timestamp, 9);
}

#[test]
fn breach_count_saturates() {
    let u = approved(10, Role::Producer);
    let cfg = config();
    let mut b = new_batch(&u, "B1");
    b.iot_summary.breach_count = u32::MAX;
    let oracle_profile = approved(ORACLE, Role::Unassigned);
    flag_batch(&mut b, &oracle_profile, key(ORACLE), &cfg, "breach".to_string(), 1).unwrap();
    assert_eq!(b.iot_summary.breach_count, u32::MAX);
}

#[test]
fn error_messages() {
    assert_eq!(SupplyChainError::TooManyEvents.message(), "Too many events in batch");
    assert_eq!(CustomError::AlreadyApproved.message(), "User already approved");
}
