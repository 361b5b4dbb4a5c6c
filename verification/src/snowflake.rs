//! The 64-bit composite identifier ("snowflake") and its factory.
//!
//! An identifier packs three fields into one 64-bit value, most significant
//! bit first:
//!   - bit 63: reserved, always 0;
//!   - bits 62..=20 (43 bits): creation time, milliseconds since the Unix
//!     epoch, truncated to the low 43 bits;
//!   - bits 19..=10 (10 bits): node id, the low bits of a hash of the host's
//!     machine identifier;
//!   - bits 9..=0 (10 bits): sequence counter within one millisecond.
//!
//! The factory derives its node id once from the host identifier and then
//! issues identifiers that grow strictly as raw values while the clock does
//! not move backward and fewer than 1024 identifiers fall into one
//! millisecond. When the counter exhausts its 10-bit range within one
//! millisecond it wraps to 0 without touching the other fields: a documented
//! capacity limit, not an error.
//!
//! Two choices are deliberate. The timestamp field holds milliseconds and is
//! read back in milliseconds, here and wherever a calendar view is derived
//! from it. And the factory keeps its last-observed millisecond already
//! truncated to the 43 bits the field can store, so the comparison that
//! decides whether the counter resets sees exactly what the identifier will
//! carry.

use vstd::prelude::*;

use chrono::Utc;

use crate::hashing::{consistent_hash, hash_of};

verus! {

/// The low 43 bits of a millisecond count: what the timestamp field can hold.
pub open spec fn masked_millis(t: u64) -> u64 {
    t & 0x7FF_FFFF_FFFF
}

/// The raw 64-bit value that packs the three fields at their offsets; each
/// field is truncated to its width.
pub open spec fn encode_raw(t: u64, node: u16, seq_id: u16) -> u64 {
    ((t & 0x7FF_FFFF_FFFF) << 20u64) | (((node as u64) & 0x3FF) << 10u64) | ((seq_id as u64)
        & 0x3FF)
}

/// The 43-bit timestamp field of a raw value.
pub open spec fn timestamp_of(raw: u64) -> u64 {
    (raw >> 20u64) & 0x7FF_FFFF_FFFF
}

/// The 10-bit node id field of a raw value.
pub open spec fn node_of(raw: u64) -> u16 {
    ((raw >> 10u64) & 0x3FF) as u16
}

/// The 10-bit sequence field of a raw value.
pub open spec fn sequence_of(raw: u64) -> u16 {
    (raw & 0x3FF) as u16
}

/// A raw value is a structurally valid identifier exactly when the reserved
/// top bit is clear.
pub open spec fn valid_raw(raw: u64) -> bool {
    raw >> 63u64 == 0
}

/// The low 10 bits of a node id: what of it survives encoding.
pub open spec fn node_low(node: u16) -> u16 {
    node & 0x3FF
}

/// Every encoded value has the reserved bit clear and carries exactly the
/// truncated fields at their offsets.
pub proof fn lemma_fields_of_encode(t: u64, node: u16, seq_id: u16)
    by (bit_vector)
    ensures
        valid_raw(encode_raw(t, node, seq_id)),
        timestamp_of(encode_raw(t, node, seq_id)) == (t & 0x7FF_FFFF_FFFF),
        node_of(encode_raw(t, node, seq_id)) == node_low(node),
        sequence_of(encode_raw(t, node, seq_id)) == (seq_id & 0x3FF),
{
}

/// Decomposing an encoded value returns exactly the three fields, whenever
/// each fits its width.
pub proof fn lemma_decompose_encode(t: u64, node: u16, seq_id: u16)
    by (bit_vector)
    requires
        t < 0x800_0000_0000,
        node < 0x400,
        seq_id < 0x400,
    ensures
        timestamp_of(encode_raw(t, node, seq_id)) == t,
        node_of(encode_raw(t, node, seq_id)) == node,
        sequence_of(encode_raw(t, node, seq_id)) == seq_id,
{
}

/// Re-encoding the three fields of any valid identifier reproduces the raw
/// value exactly.
pub proof fn lemma_encode_decompose(raw: u64)
    by (bit_vector)
    requires
        valid_raw(raw),
    ensures
        encode_raw(timestamp_of(raw), node_of(raw), sequence_of(raw)) == raw,
{
}

/// Numeric order of raw values agrees with timestamp-major, sequence-minor
/// order of the fields, for one node id and fields within their widths.
pub proof fn lemma_encode_order(t1: u64, node: u16, s1: u16, t2: u64, s2: u16)
    by (bit_vector)
    requires
        t1 <= 0x7FF_FFFF_FFFF,
        t2 <= 0x7FF_FFFF_FFFF,
        s1 < 0x400,
        s2 < 0x400,
        t1 < t2 || (t1 == t2 && s1 < s2),
    ensures
        encode_raw(t1, node, s1) < encode_raw(t2, node, s2),
{
}

/// Numeric order of valid raw values is exactly lexicographic order of their
/// fields: timestamp-major, node-id-second, sequence-minor.
pub proof fn lemma_order_is_lexicographic(a: u64, b: u64)
    by (bit_vector)
    requires
        valid_raw(a),
        valid_raw(b),
    ensures
        a < b <==> (timestamp_of(a) < timestamp_of(b) || (timestamp_of(a) == timestamp_of(b)
            && node_of(a) < node_of(b)) || (timestamp_of(a) == timestamp_of(b) && node_of(a)
            == node_of(b) && sequence_of(a) < sequence_of(b))),
{
}

/// A 64-bit composite identifier with the reserved top bit clear.
///
/// Its total order as a value is the unsigned numeric order of the raw
/// 64-bit form, which coincides with timestamp-major, node-id-second,
/// sequence-minor order of the fields.
#[derive(Debug, Clone, Copy, PartialEq, Eq, PartialOrd, Ord, Hash, Structural)]
pub struct Snowflake {
    raw: u64,
}

impl View for Snowflake {
    type V = u64;

    closed spec fn view(&self) -> u64 {
        self.raw
    }
}

/// The error returned when a raw 64-bit value has its reserved top bit set.
#[derive(Debug, Clone, Copy, PartialEq, Eq, Structural)]
pub struct SnowflakeFormatError;

/// What converting a raw 64-bit value yields: the identifier carrying that
/// value when the reserved bit is clear, the format error otherwise.
pub closed spec fn raw_conversion(raw: u64) -> Result<Snowflake, SnowflakeFormatError> {
    if valid_raw(raw) {
        Ok(Snowflake { raw })
    } else {
        Err(SnowflakeFormatError)
    }
}

impl Snowflake {
    /// Packs the three fields into an identifier; fields wider than their
    /// allotted width are truncated to the low bits of that width.
    pub fn new(machine_id: u16, sequence_id: u16, timestamp_millis: u64) -> (r: Snowflake)
        ensures
            r@ == encode_raw(timestamp_millis, machine_id, sequence_id),
            valid_raw(r@),
    {
        let raw = ((timestamp_millis & 0x7FF_FFFF_FFFF) << 20u64) | (((machine_id as u64) & 0x3FF)
            << 10u64) | ((sequence_id as u64) & 0x3FF);
        proof {
            lemma_fields_of_encode(timestamp_millis, machine_id, sequence_id);
        }
        Snowflake { raw }
    }

    /// The raw 43-bit timestamp field: milliseconds since the Unix epoch,
    /// truncated at encoding.
    pub fn timestamp_raw(&self) -> (r: u64)
        ensures
            r == timestamp_of(self@),
    {
        (self.raw >> 20u64) & 0x7FF_FFFF_FFFF
    }

    /// The id of the machine that created this identifier.
    pub fn machine_id(&self) -> (r: u16)
        ensures
            r == node_of(self@),
    {
        ((self.raw >> 10u64) & 0x3FF) as u16
    }

    /// The rank of this identifier among those created within its
    /// millisecond.
    pub fn sequence_id(&self) -> (r: u16)
        ensures
            r == sequence_of(self@),
    {
        (self.raw & 0x3FF) as u16
    }

    /// The three stored fields, exactly as encoded: timestamp in
    /// milliseconds, node id, sequence counter.
    pub fn decompose(self) -> (r: (u64, u16, u16))
        ensures
            r.0 == timestamp_of(self@),
            r.1 == node_of(self@),
            r.2 == sequence_of(self@),
    {
        (self.timestamp_raw(), self.machine_id(), self.sequence_id())
    }

    /// The raw 64-bit form: total and lossless.
    pub fn to_raw(self) -> (r: u64)
        ensures
            r == self@,
    {
        self.raw
    }

    /// Converts a raw 64-bit value, rejecting any value whose reserved top
    /// bit is set and accepting every other bit pattern unchanged.
    pub fn try_from_raw(raw: u64) -> (r: Result<Snowflake, SnowflakeFormatError>)
        ensures
            r == raw_conversion(raw),
            r is Ok <==> valid_raw(raw),
            r is Ok ==> r->Ok_0@ == raw,
    {
        if (raw >> 63u64) & 1 == 1 {
            proof {
                assert(!(raw >> 63u64 == 0)) by (bit_vector)
                    requires
                        (raw >> 63u64) & 1 == 1,
                ;
            }
            Err(SnowflakeFormatError)
        } else {
            proof {
                assert(raw >> 63u64 == 0) by (bit_vector)
                    requires
                        (raw >> 63u64) & 1 != 1,
                ;
            }
            Ok(Snowflake { raw })
        }
    }

}

/// Any raw 64-bit value with the reserved top bit clear converts to an
/// identifier, and its raw form is exactly the input.
pub proof fn lemma_raw_round_trip(x: u64)
    requires
        valid_raw(x),
    ensures
        raw_conversion(x) is Ok,
        raw_conversion(x)->Ok_0@ == x,
{
}

/// Any raw 64-bit value with the reserved top bit set is rejected with the
/// format error.
pub proof fn lemma_reserved_bit_rejected(x: u64)
    requires
        !valid_raw(x),
    ensures
        raw_conversion(x) is Err,
{
}

impl From<Snowflake> for u64 {
    /// The raw 64-bit form of the identifier.
    fn from(value: Snowflake) -> (r: u64) {
        value.to_raw()
    }
}

impl vstd::std_specs::convert::FromSpecImpl<Snowflake> for u64 {
    open spec fn obeys_from_spec() -> bool {
        true
    }

    open spec fn from_spec(v: Snowflake) -> u64 {
        v@
    }
}

impl TryFrom<u64> for Snowflake {
    type Error = SnowflakeFormatError;

    /// Accepts any raw value with the reserved top bit clear.
    fn try_from(value: u64) -> (r: Result<Snowflake, SnowflakeFormatError>) {
        Snowflake::try_from_raw(value)
    }
}

impl vstd::std_specs::convert::TryFromSpecImpl<u64> for Snowflake {
    open spec fn obeys_try_from_spec() -> bool {
        true
    }

    open spec fn try_from_spec(v: u64) -> Result<Snowflake, SnowflakeFormatError> {
        raw_conversion(v)
    }
}

/// Relies on chrono::Utc::now and chrono::DateTime::timestamp_millis: the
/// current wall-clock time as whole non-leap milliseconds since the Unix
/// epoch, negative before it. `Utc::now` fails only by panicking, when the
/// system clock stands before the epoch.
#[verifier::external_body]
fn current_millis() -> (r: i64) {
    Utc::now().timestamp_millis()
}

/// Relies on machine_uid::get: the host's stable machine identifier, read
/// from the platform's native source; `None` when it cannot be obtained.
#[verifier::external_body]
fn host_identifier() -> (r: Option<Vec<u8>>) {
    match machine_uid::get() {
        Ok(id) => Some(id.into_bytes()),
        Err(_) => None,
    }
}

/// The error returned when the host's machine identifier cannot be obtained
/// at factory construction; no identifiers can be generated without it.
#[derive(Debug, Clone, Copy, PartialEq, Eq, Structural)]
pub struct HostIdentityUnavailable;

/// The sequence counter after one step at clock reading `now`: one more,
/// wrapping modulo 1024, within the millisecond recorded as `last`; 0 in any
/// other millisecond.
pub open spec fn next_sequence(last: u64, seq_id: u16, now: u64) -> u16 {
    if masked_millis(now) == last {
        (((seq_id + 1) as int % 1024) as u16)
    } else {
        0u16
    }
}

/// The raw identifier a factory with node id `node` and state `(last,
/// seq_id)` issues at clock reading `now`.
pub open spec fn issued_raw(node: u16, last: u64, seq_id: u16, now: u64) -> u64 {
    encode_raw(masked_millis(now), node, next_sequence(last, seq_id, now))
}

/// A stateful generator of identifiers: a node id derived once, the last
/// millisecond observed, and the sequence counter within it.
///
/// It is made for single-owner, sequential use: callers sharing one factory
/// must serialize their calls.
#[derive(Debug)]
pub struct SnowflakeFactory {
    machine_id: u16,
    sequence_id: u16,
    last_timestamp_millis: u64,
}

impl SnowflakeFactory {
    /// The node id derived at construction; never changed afterwards.
    pub closed spec fn node_id(self) -> u16 {
        self.machine_id
    }

    /// The sequence counter for the current millisecond.
    pub closed spec fn sequence(self) -> u16 {
        self.sequence_id
    }

    /// The last millisecond value observed, already truncated to 43 bits.
    pub closed spec fn last_millis(self) -> u64 {
        self.last_timestamp_millis
    }

    /// The state invariant: the counter fits its 10-bit field and the stored
    /// millisecond fits the 43-bit timestamp field.
    pub open spec fn wf(self) -> bool {
        self.sequence() < 1024 && self.last_millis() <= 0x7FF_FFFF_FFFF
    }

    /// Builds a factory for a given host identifier: the node id is the low
    /// 16 bits of the content hash of the identifier bytes, of which
    /// encoding keeps the low 10.
    pub fn from_host_identifier(id: &[u8]) -> (r: SnowflakeFactory)
        ensures
            r.wf(),
            r.node_id() == (hash_of(id@) & 0xFFFF) as u16,
            r.sequence() == 0,
            r.last_millis() == 0,
    {
        let h = consistent_hash(id);
        proof {
            assert(h as u16 == (h & 0xFFFF) as u16) by (bit_vector);
        }
        SnowflakeFactory { machine_id: h as u16, sequence_id: 0, last_timestamp_millis: 0 }
    }

    /// Creates a factory whose node id is derived from this host's machine
    /// identifier; fails when that identifier cannot be obtained.
    pub fn new() -> (r: Result<SnowflakeFactory, HostIdentityUnavailable>)
        ensures
            r is Ok ==> r->Ok_0.wf() && r->Ok_0.sequence() == 0 && r->Ok_0.last_millis() == 0,
    {
        match host_identifier() {
            Some(id) => Ok(SnowflakeFactory::from_host_identifier(id.as_slice())),
            None => Err(HostIdentityUnavailable),
        }
    }

    /// One generation step at a given clock reading, in whole milliseconds:
    /// within the millisecond last observed the counter grows by one,
    /// wrapping modulo 1024; in any other millisecond the counter restarts
    /// at 0. The issued identifier packs the updated state with the node id.
    pub fn advance(&mut self, now_millis: u64) -> (r: Snowflake)
        requires
            old(self).wf(),
        ensures
            final(self).wf(),
            final(self).node_id() == old(self).node_id(),
            final(self).last_millis() == masked_millis(now_millis),
            final(self).sequence() == next_sequence(
                old(self).last_millis(),
                old(self).sequence(),
                now_millis,
            ),
            r@ == issued_raw(
                old(self).node_id(),
                old(self).last_millis(),
                old(self).sequence(),
                now_millis,
            ),
            valid_raw(r@),
            timestamp_of(r@) == masked_millis(now_millis),
            node_of(r@) == node_low(old(self).node_id()),
            sequence_of(r@) == final(self).sequence(),
    {
        let t = now_millis & 0x7FF_FFFF_FFFF;
        if self.last_timestamp_millis == t {
            self.sequence_id = (self.sequence_id + 1) % 1024;
        } else {
            self.last_timestamp_millis = t;
            self.sequence_id = 0;
        }
        let node = self.machine_id;
        let seq_now = self.sequence_id;
        let last_now = self.last_timestamp_millis;
        let r = Snowflake::new(node, seq_now, last_now);
        proof {
            lemma_fields_of_encode(last_now, node, seq_now);
            assert(now_millis & 0x7FF_FFFF_FFFF <= 0x7FF_FFFF_FFFF) by (bit_vector);
            assert((now_millis & 0x7FF_FFFF_FFFF) & 0x7FF_FFFF_FFFF == now_millis
                & 0x7FF_FFFF_FFFF) by (bit_vector);
            assert(seq_now & 0x3FF == seq_now) by (bit_vector)
                requires
                    seq_now < 1024,
            ;
        }
        r
    }

    /// Issues the next identifier from the current wall clock. Whatever the
    /// clock returned: the node id is unchanged and stamped into the
    /// identifier; within the recorded millisecond the counter grew by one,
    /// wrapping modulo 1024, and in a new millisecond it restarted at 0.
    pub fn next(&mut self) -> (r: Snowflake)
        requires
            old(self).wf(),
        ensures
            final(self).wf(),
            final(self).node_id() == old(self).node_id(),
            valid_raw(r@),
            r@ == encode_raw(final(self).last_millis(), final(self).node_id(), final(self).sequence()),
            timestamp_of(r@) == final(self).last_millis(),
            node_of(r@) == node_low(old(self).node_id()),
            sequence_of(r@) == final(self).sequence(),
            final(self).last_millis() == old(self).last_millis() ==> final(self).sequence() == (
            (old(self).sequence() + 1) as int % 1024) as u16,
            final(self).last_millis() != old(self).last_millis() ==> final(self).sequence() == 0,
    {
        let ms_signed = current_millis();
        let ms: u64 = if ms_signed < 0 {
            0
        } else {
            ms_signed as u64
        };
        self.advance(ms)
    }
}

/// Every identifier a factory issues carries the same node id field — the
/// low 10 bits of the node id it was built with — whatever its state and
/// whatever the clock reads.
pub proof fn lemma_node_id_stable(
    node: u16,
    last1: u64,
    seq1: u16,
    now1: u64,
    last2: u64,
    seq2: u16,
    now2: u64,
)
    ensures
        node_of(issued_raw(node, last1, seq1, now1)) == node_low(node),
        node_of(issued_raw(node, last1, seq1, now1)) == node_of(
            issued_raw(node, last2, seq2, now2),
        ),
{
    lemma_fields_of_encode(masked_millis(now1), node, next_sequence(last1, seq1, now1));
    lemma_fields_of_encode(masked_millis(now2), node, next_sequence(last2, seq2, now2));
}

/// Two successive identifiers from one factory grow strictly as raw values,
/// provided the clock reading did not move backward between them and the
/// first call did not exhaust the 1024 sequence values of its millisecond.
pub proof fn lemma_successive_ids_increase(node: u16, last: u64, seq_id: u16, now1: u64, now2: u64)
    requires
        seq_id < 1024,
        masked_millis(now1) <= masked_millis(now2),
        masked_millis(now1) == masked_millis(now2) ==> next_sequence(last, seq_id, now1) < 1023,
    ensures
        issued_raw(node, last, seq_id, now1) < issued_raw(
            node,
            masked_millis(now1),
            next_sequence(last, seq_id, now1),
            now2,
        ),
{
    let t1 = masked_millis(now1);
    let t2 = masked_millis(now2);
    let s1 = next_sequence(last, seq_id, now1);
    let s2 = next_sequence(t1, s1, now2);
    assert(t1 <= 0x7FF_FFFF_FFFF && t2 <= 0x7FF_FFFF_FFFF) by (bit_vector)
        requires
            t1 == now1 & 0x7FF_FFFF_FFFF && t2 == now2 & 0x7FF_FFFF_FFFF,
    ;
    assert(s1 < 1024 && s2 < 1024);
    if t1 == t2 {
        assert(s2 == ((s1 + 1) as int % 1024) as u16);
        assert(s2 == s1 + 1);
        lemma_encode_order(t1, node, s1, t2, s2);
    } else {
        lemma_encode_order(t1, node, s1, t2, s2);
    }
}

} // verus!
