use vstd::prelude::*;


verus! {

/// The lower-case form of a text, as `str::to_lowercase` gives it.
pub uninterp spec fn lower_of(s: Seq<char>) -> Seq<char>;

/// The 64-bit value std's default hasher gives for a text.
pub uninterp spec fn std_hash_of(s: Seq<char>) -> u64;

/// Whether `needle` occurs in `hay` as a contiguous run.
pub open spec fn has_substring(hay: Seq<char>, needle: Seq<char>) -> bool {
    exists|i: int|
        0 <= i && i + needle.len() <= hay.len() && #[trigger] hay.subrange(i, i + needle.len())
            == needle
}

/// Relies on `str::to_lowercase`: the lower-case form depends on the text
/// alone.
#[verifier::external_body]
fn lowercase(s: &str) -> (r: String)
    ensures
        r@ == lower_of(s@),
{
    s.to_lowercase()
}

/// Relies on `str::contains` with a `&str` pattern: true exactly when the
/// pattern occurs in the text.
#[verifier::external_body]
fn contains_text(hay: &str, needle: &str) -> (r: bool)
    ensures
        r == has_substring(hay@, needle@),
{
    hay.contains(needle)
}

/// Relies on `std::collections::hash_map::DefaultHasher::new`, `Hash` for
/// `str` and `Hasher::finish`: every hasher made by `new` hashes the same
/// text to the same value.
#[verifier::external_body]
fn std_hash(s: &str) -> (r: u64)
    ensures
        r == std_hash_of(s@),
{
    let mut hasher = std::collections::hash_map::DefaultHasher::new();
    std::hash::Hash::hash(s, &mut hasher);
    std::hash::Hasher::finish(&hasher)
}

/// What the text of a flagging reason calls for.
#[derive(Clone, Copy, Debug, PartialEq, Eq, Structural)]
pub struct ReasonClass {
    /// The batch is recalled rather than only flagged.
    pub severe: bool,
    /// The cold chain was broken.
    pub cold_chain_broken: bool,
    /// Fraud was detected.
    pub fraud: bool,
    /// The breach count goes up.
    pub counts_breach: bool,
}

/// The classification of a lower-case reason by its keywords.
pub open spec fn reason_class(lowered: Seq<char>) -> ReasonClass {
    ReasonClass {
        severe: has_substring(lowered, "severe"@) || has_substring(lowered, "critical"@)
            || has_substring(lowered, "recall"@),
        cold_chain_broken: has_substring(lowered, "temperature"@) || has_substring(
            lowered,
            "cold"@,
        ),
        fraud: has_substring(lowered, "fraud"@),
        counts_breach: has_substring(lowered, "breach"@) || has_substring(
            lowered,
            "temperature"@,
        ),
    }
}

/// Classifies an already lower-cased reason by the keywords it holds.
pub fn classify_reason(lowered: &str) -> (r: ReasonClass)
    ensures
        r == reason_class(lowered@),
{
    let severe = contains_text(lowered, "severe") || contains_text(lowered, "critical")
        || contains_text(lowered, "recall");
    let temperature = contains_text(lowered, "temperature");
    let cold_chain_broken = temperature || contains_text(lowered, "cold");
    let fraud = contains_text(lowered, "fraud");
    let counts_breach = contains_text(lowered, "breach") || temperature;
    ReasonClass { severe, cold_chain_broken, fraud, counts_breach }
}

/// Classifies a reason by its keywords, whatever their case.
pub fn classify_reason_text(reason: &str) -> (r: ReasonClass)
    ensures
        r == reason_class(lower_of(reason@)),
{
    let lowered = lowercase(reason);
    classify_reason(lowered.as_str())
}

/// Byte `i` of `d` in little-endian order.
pub open spec fn le_byte(d: u64, i: int) -> u8 {
    ((d >> ((8 * i) as u64)) & 0xffu64) as u8
}

/// The 32-byte details digest of a reason: its bytes, zero-padded, when
/// they fit; else the low-order bytes of `digest`, zero-padded.
pub open spec fn reason_digest_bytes(bytes: Seq<u8>, digest: u64) -> Seq<u8> {
    if bytes.len() <= 32 {
        Seq::new(32, |i: int| if i < bytes.len() { bytes[i] } else { 0u8 })
    } else {
        Seq::new(32, |i: int| if i < 8 { le_byte(digest, i) } else { 0u8 })
    }
}

/// The details digest recorded when a batch is flagged for `reason`.
pub open spec fn flag_details_hash(reason: Seq<char>) -> Seq<u8> {
    reason_digest_bytes(vstd::utf8::encode_utf8(reason), std_hash_of(reason))
}

/// Builds the details digest of a reason from its bytes and, for a reason
/// longer than 32 bytes, its hash `digest`.
pub fn reason_details_hash(reason: &str, digest: u64) -> (r: [u8; 32])
    ensures
        r@ == reason_digest_bytes(vstd::utf8::encode_utf8(reason@), digest),
{
    let bytes = reason.as_bytes();
    let mut out: [u8; 32] = [0u8; 32];
    if bytes.len() <= 32 {
        let mut i: usize = 0;
        while i < bytes.len()
            invariant
                bytes@ == vstd::utf8::encode_utf8(reason@),
                bytes@.len() <= 32,
                0 <= i <= bytes@.len(),
                forall|j: int| 0 <= j < i ==> out[j] == bytes@[j],
                forall|j: int| i <= j < 32 ==> out[j] == 0u8,
            decreases bytes@.len() - i,
        {
            out[i] = bytes[i];
            i = i + 1;
        }
    } else {
        let mut i: u64 = 0;
        while i < 8
            invariant
                0 <= i <= 8,
                forall|j: int| 0 <= j < i ==> out[j] == le_byte(digest, j),
                forall|j: int| i <= j < 32 ==> out[j] == 0u8,
            decreases 8 - i,
        {
            out[i as usize] = ((digest >> (8 * i)) & 0xff) as u8;
            i = i + 1;
        }
    }
    assert(out@ =~= reason_digest_bytes(vstd::utf8::encode_utf8(reason@), digest));
    out
}

/// The details digest recorded when a batch is flagged for `reason`.
pub fn flag_reason_hash(reason: &str) -> (r: [u8; 32])
    ensures
        r@ == flag_details_hash(reason@),
{
    let digest: u64 = if reason.as_bytes().len() <= 32 {
        0
    } else {
        std_hash(reason)
    };
    reason_details_hash(reason, digest)
}

} // verus!
