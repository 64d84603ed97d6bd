use vstd::prelude::*;

verus! {

broadcast use vstd::array::group_array_axioms;

/// Longest batch identifier, in bytes.
pub const BATCH_ID_LENGTH: usize = 64;
/// Longest metadata content identifier, in bytes.
pub const METADATA_CID_LENGTH: usize = 128;
/// Capacity of a batch's event log.
pub const EVENT_LENGTH: usize = 50;
/// Longest product type, in bytes.
pub const PRODUCT_TYPE_LENGTH: usize = 64;
/// Longest event details content identifier, in bytes.
pub const DETAILS_CID_LENGTH: usize = 64;
/// Longest IoT location summary, in bytes.
pub const LOCATION_SUMMARY_LENGTH: usize = 256;
/// Longest certification type, in bytes.
pub const CERTIFICATION_TYPE_LENGTH: usize = 128;
/// Longest certification content identifier, in bytes.
pub const CERTIFICATION_CID_LENGTH: usize = 128;
/// Longest IoT content identifier, in bytes.
pub const IOT_CID_LENGTH: usize = 128;
/// How old, in seconds, an IoT summary may be for a compliance check.
pub const IOT_FRESHNESS_WINDOW: i64 = 3600;

/// A wallet identity: the 32 bytes of a public key.
#[derive(Clone, Copy, Debug, PartialEq, Eq)]
pub struct Pubkey {
    pub bytes: [u8; 32],
}

/// The byte length of a text, in UTF-8.
pub open spec fn byte_len(s: Seq<char>) -> nat {
    vstd::utf8::encode_utf8(s).len()
}

/// A text that is not empty and holds at most `max` bytes.
pub open spec fn bounded_text(s: Seq<char>, max: nat) -> bool {
    s.len() > 0 && byte_len(s) <= max
}

/// Whether a text is not empty and holds at most `max` bytes.
pub fn text_is_bounded(s: &str, max: usize) -> (r: bool)
    ensures
        r == bounded_text(s@, max as nat),
{
    if s.is_empty() {
        false
    } else {
        s.as_bytes().len() <= max
    }
}

/// One more than `c`, held at the largest `u32`.
pub open spec fn saturating_inc(c: u32) -> u32 {
    if c < u32::MAX {
        (c + 1) as u32
    } else {
        c
    }
}

/// One more than `c`, held at the largest `u32`.
pub fn increment_saturating(c: u32) -> (r: u32)
    ensures
        r == saturating_inc(c),
{
    if c < u32::MAX {
        c + 1
    } else {
        c
    }
}

/// A 32-byte digest made only of zeros.
pub open spec fn is_zero_digest(d: [u8; 32]) -> bool {
    forall|i: int| 0 <= i < 32 ==> d[i] == 0
}

/// Whether a digest holds only zeros.
pub fn digest_is_zero(d: &[u8; 32]) -> (r: bool)
    ensures
        r == is_zero_digest(*d),
{
    let mut i: usize = 0;
    while i < 32
        invariant
            0 <= i <= 32,
            forall|j: int| 0 <= j < i ==> d[j] == 0,
        decreases 32 - i,
    {
        if d[i] != 0 {
            return false;
        }
        i = i + 1;
    }
    true
}

impl Pubkey {
    /// The all-zero key, which names nobody.
    pub open spec fn is_default_spec(self) -> bool {
        is_zero_digest(self.bytes)
    }

    /// The all-zero key.
    pub fn zero() -> (r: Pubkey)
        ensures
            r.is_default_spec(),
    {
        Pubkey { bytes: [0u8; 32] }
    }

    /// Whether this is the all-zero key.
    pub fn is_default(&self) -> (r: bool)
        ensures
            r == self.is_default_spec(),
    {
        digest_is_zero(&self.bytes)
    }

    /// Whether two keys are the same identity.
    pub fn equals(&self, other: &Pubkey) -> (r: bool)
        ensures
            r == (*self == *other),
    {
        let mut i: usize = 0;
        while i < 32
            invariant
                0 <= i <= 32,
                forall|j: int| 0 <= j < i ==> self.bytes[j] == other.bytes[j],
            decreases 32 - i,
        {
            if self.bytes[i] != other.bytes[i] {
                return false;
            }
            i = i + 1;
        }
        assert(self.bytes =~= other.bytes);
        true
    }
}

/// What a user may do in the supply chain.
#[derive(Clone, Copy, Debug, PartialEq, Eq, Structural)]
pub enum Role {
    /// Registered, no role granted yet.
    Unassigned,
    Producer,
    Processor,
    Distributor,
    Retailer,
    Consumer,
    Regulator,
    Administrator,
}

/// Where a batch stands in its lifecycle.
#[derive(Clone, Copy, Debug, PartialEq, Eq, Structural)]
pub enum BatchStatus {
    Registered,
    InProcessing,
    InTransit,
    Sold,
    Flagged,
    Recalled,
    Compliant,
}

/// The kind of an entry in a batch's event log.
#[derive(Clone, Copy, Debug, PartialEq, Eq, Structural)]
pub enum EventType {
    HandOver,
    BreachDetected,
    ProcessingUpdate,
    StorageUpdate,
    ComplianceCheck,
}

/// The process-wide configuration: who administers and who is the oracle.
#[derive(Clone, Copy, Debug, PartialEq, Eq)]
pub struct SystemConfig {
    pub is_initialized: bool,
    pub admin_wallet: Pubkey,
    pub oracle_wallet: Pubkey,
}

/// A registered user and the role an administrator granted them.
#[derive(Clone, Copy, Debug, PartialEq, Eq)]
pub struct UserProfile {
    pub user_wallet: Pubkey,
    pub role: Role,
    pub profile_hash: [u8; 32],
    pub is_approved: bool,
    pub registered_at: i64,
}

/// Where and when a batch was produced.
///
/// The weight is held in grams.
#[derive(Clone, Debug, PartialEq, Eq)]
pub struct OriginDetails {
    pub production_date: i64,
    pub quantity: u64,
    pub weight: u64,
    pub product_type: String,
}

/// One entry of a batch's append-only event log.
#[derive(Clone, Debug, PartialEq, Eq)]
pub struct Event {
    pub event_type: EventType,
    pub timestamp: i64,
    pub from_wallet: Pubkey,
    pub to_wallet: Pubkey,
    pub details_hash: [u8; 32],
    pub details_cid: String,
}

/// A summary of the telemetry a batch went through.
///
/// Temperatures are in hundredths of a degree Celsius, humidity in
/// hundredths of a percent.
#[derive(Clone, Debug, PartialEq, Eq)]
pub struct IoTSummaryStruct {
    pub timestamp: i64,
    pub min_temp: i32,
    pub max_temp: i32,
    pub avg_temp: i32,
    pub min_humidity: i32,
    pub max_humidity: i32,
    pub avg_humidity: i32,
    pub location_summary: String,
    pub breach_detected: bool,
    pub breach_count: u32,
}

/// The limits a batch's telemetry is held to, in the units of
/// [`IoTSummaryStruct`].
#[allow(non_camel_case_types)]
#[derive(Clone, Copy, Debug, PartialEq, Eq, Structural)]
pub struct thresholdStruct {
    pub max_temp: i32,
    pub max_humidity: i32,
    pub max_breach_duration: u32,
}

/// Derived compliance state of a batch.
#[derive(Clone, Copy, Debug, PartialEq, Eq, Structural)]
pub struct ComplianceFlagsStruct {
    pub cold_chain_compliant: bool,
    pub fraud_detected: bool,
    pub certification_issued: bool,
}

/// A traceable unit of product and its custody record.
#[derive(Clone, Debug, PartialEq, Eq)]
pub struct Batch {
    pub id: String,
    pub producer: Pubkey,
    pub current_owner: Pubkey,
    pub status: BatchStatus,
    pub origin_details: OriginDetails,
    pub metadata_hash: [u8; 32],
    pub metadata_cid: String,
    pub events: Vec<Event>,
    pub iot_summary: IoTSummaryStruct,
    pub iot_hash: [u8; 32],
    pub iot_cid: String,
    pub threshold: thresholdStruct,
    pub compliance: ComplianceFlagsStruct,
}

impl Batch {
    /// The event log stays within its capacity.
    pub open spec fn wf(&self) -> bool {
        self.events@.len() <= EVENT_LENGTH
    }
}

/// An attestation issued by a regulator for a compliant batch.
#[derive(Clone, Debug, PartialEq, Eq)]
pub struct Certification {
    pub batch_id: String,
    pub cert_type: String,
    pub issuer: Pubkey,
    pub issue_data: i64,
    pub cert_hash: [u8; 32],
    pub cert_cid: String,
    pub valid: bool,
}

} // verus!
