//! Execution receipts and the hash commitment that binds a receipt to its
//! fields.

use crate::bytes::bytes_equal;
use crate::bytes::i64_le_bytes;
use crate::bytes::i64_to_le_bytes;
use crate::bytes::lemma_i64_le_bytes_injective;
use crate::bytes::lemma_le_bytes_value;
use crate::digest::sha256;
use crate::digest::sha256_digest;
use crate::pubkey::Pubkey;
use vstd::prelude::*;
use vstd::utf8::encode_utf8;
use vstd::utf8::encode_utf8_decode_utf8;

verus! {

/// How an execution attempt ended.
#[derive(Clone, Copy, Debug, PartialEq, Eq)]
pub enum ExecutionStatus {
    Success,
    Rejected,
    Failed,
}

impl ExecutionStatus {
    /// The byte that stands for a status in a commitment.
    pub open spec fn commitment_byte(self) -> u8 {
        match self {
            ExecutionStatus::Success => 0,
            ExecutionStatus::Rejected => 1,
            ExecutionStatus::Failed => 2,
        }
    }

    /// The byte that stands for this status in a commitment.
    pub fn to_commitment_byte(&self) -> (byte: u8)
        ensures
            byte == self.commitment_byte(),
    {
        match self {
            ExecutionStatus::Success => 0,
            ExecutionStatus::Rejected => 1,
            ExecutionStatus::Failed => 2,
        }
    }
}

/// The record of one execution attempt. `execution_hash` commits to the other
/// five fields; `policy_hash` is a commitment to the governing policy that is
/// computed elsewhere.
#[derive(Clone, Debug, PartialEq, Eq)]
pub struct ExecutionReceipt {
    pub execution_hash: [u8; 32],
    pub agent_id: Pubkey,
    pub policy_hash: [u8; 32],
    pub timestamp_unix_ms: i64,
    pub status: ExecutionStatus,
    pub error: Option<String>,
}

/// The bytes that an error message contributes to a commitment: its UTF-8
/// encoding, and nothing where there is no message.
pub open spec fn error_bytes(error: Option<Seq<char>>) -> Seq<u8> {
    match error {
        Some(text) => encode_utf8(text),
        None => Seq::empty(),
    }
}

/// The byte string that a receipt's hash is taken of: the agent's 32 bytes,
/// the 32 bytes of the policy hash, the timestamp as eight little-endian
/// bytes, one status byte, and the bytes of the error message.
pub open spec fn commitment_preimage(
    agent_id: Seq<u8>,
    policy_hash: Seq<u8>,
    timestamp_unix_ms: i64,
    status: ExecutionStatus,
    error: Option<Seq<char>>,
) -> Seq<u8> {
    agent_id + policy_hash + i64_le_bytes(timestamp_unix_ms) + seq![status.commitment_byte()]
        + error_bytes(error)
}

/// The commitment to an execution outcome: the SHA-256 digest of its
/// preimage.
pub open spec fn execution_commitment(
    agent_id: Seq<u8>,
    policy_hash: Seq<u8>,
    timestamp_unix_ms: i64,
    status: ExecutionStatus,
    error: Option<Seq<char>>,
) -> Seq<u8> {
    sha256(commitment_preimage(agent_id, policy_hash, timestamp_unix_ms, status, error))
}

/// Serializes the committed fields of an execution outcome into the byte
/// string that is hashed.
pub fn execution_preimage(
    agent_id: &Pubkey,
    policy_hash: &[u8; 32],
    timestamp_unix_ms: i64,
    status: &ExecutionStatus,
    error: &Option<String>,
) -> (bytes: Vec<u8>)
    ensures
        bytes@ == commitment_preimage(
            agent_id@,
            policy_hash@,
            timestamp_unix_ms,
            *status,
            error.deep_view(),
        ),
{
    let mut bytes: Vec<u8> = Vec::new();
    bytes.extend_from_slice(agent_id.0.as_slice());
    bytes.extend_from_slice(policy_hash.as_slice());
    let timestamp = i64_to_le_bytes(timestamp_unix_ms);
    bytes.extend_from_slice(timestamp.as_slice());
    bytes.push(status.to_commitment_byte());
    if let Some(text) = error {
        bytes.extend_from_slice(text.as_str().as_bytes());
    }
    assert(bytes@ =~= commitment_preimage(
        agent_id@,
        policy_hash@,
        timestamp_unix_ms,
        *status,
        error.deep_view(),
    ));
    bytes
}

impl ExecutionReceipt {
    /// The byte string that this receipt's hash should be the digest of.
    pub open spec fn preimage(&self) -> Seq<u8> {
        commitment_preimage(
            self.agent_id@,
            self.policy_hash@,
            self.timestamp_unix_ms,
            self.status,
            self.error.deep_view(),
        )
    }

    /// Whether the stored hash is the commitment to the receipt's own fields.
    pub open spec fn is_consistent(&self) -> bool {
        self.execution_hash@ == sha256(self.preimage())
    }

    /// Computes the 256-bit commitment to an execution outcome.
    pub fn compute_execution_hash(
        agent_id: &Pubkey,
        policy_hash: &[u8; 32],
        timestamp_unix_ms: i64,
        status: &ExecutionStatus,
        error: &Option<String>,
    ) -> (hash: [u8; 32])
        ensures
            hash@ == execution_commitment(
                agent_id@,
                policy_hash@,
                timestamp_unix_ms,
                *status,
                error.deep_view(),
            ),
    {
        let preimage = execution_preimage(agent_id, policy_hash, timestamp_unix_ms, status, error);
        sha256_digest(preimage.as_slice())
    }

    /// Whether the stored hash equals `digest`, byte for byte.
    pub fn commits_to(&self, digest: &[u8; 32]) -> (same: bool)
        ensures
            same == (self.execution_hash@ == digest@),
    {
        bytes_equal(self.execution_hash.as_slice(), digest.as_slice())
    }

    /// Recomputes the commitment from the receipt's own fields and compares it
    /// with the stored hash.
    pub fn verify_deterministic_fields(&self) -> (consistent: bool)
        ensures
            consistent == self.is_consistent(),
    {
        let expected = Self::compute_execution_hash(
            &self.agent_id,
            &self.policy_hash,
            self.timestamp_unix_ms,
            &self.status,
            &self.error,
        );
        self.commits_to(&expected)
    }
}

/// The text that an error field commits to: the message itself, and the
/// empty text where there is no message.
pub open spec fn error_text(error: Option<Seq<char>>) -> Seq<char> {
    match error {
        Some(text) => text,
        None => Seq::empty(),
    }
}

/// Whether two receipts differ in a field that the hash commits to. An absent
/// error and an empty error message count as the same.
pub open spec fn differ_in_committed_fields(a: &ExecutionReceipt, b: &ExecutionReceipt) -> bool {
    ||| a.agent_id@ != b.agent_id@
    ||| a.policy_hash@ != b.policy_hash@
    ||| a.timestamp_unix_ms != b.timestamp_unix_ms
    ||| a.status != b.status
    ||| error_text(a.error.deep_view()) != error_text(b.error.deep_view())
}

/// Whether SHA-256 tells the two byte strings apart unless they are equal.
pub open spec fn collision_free(a: Seq<u8>, b: Seq<u8>) -> bool {
    sha256(a) == sha256(b) ==> a == b
}

/// The preimage determines every committed field: two outcomes with the same
/// preimage have the same agent, policy hash, timestamp, status and error
/// text.
pub proof fn lemma_preimage_injective(
    agent_a: Seq<u8>,
    policy_hash_a: Seq<u8>,
    timestamp_a: i64,
    status_a: ExecutionStatus,
    error_a: Option<Seq<char>>,
    agent_b: Seq<u8>,
    policy_hash_b: Seq<u8>,
    timestamp_b: i64,
    status_b: ExecutionStatus,
    error_b: Option<Seq<char>>,
)
    requires
        agent_a.len() == 32,
        agent_b.len() == 32,
        policy_hash_a.len() == 32,
        policy_hash_b.len() == 32,
        commitment_preimage(agent_a, policy_hash_a, timestamp_a, status_a, error_a)
            == commitment_preimage(agent_b, policy_hash_b, timestamp_b, status_b, error_b),
    ensures
        agent_a == agent_b,
        policy_hash_a == policy_hash_b,
        timestamp_a == timestamp_b,
        status_a == status_b,
        error_text(error_a) == error_text(error_b),
{
    lemma_le_bytes_value(timestamp_a);
    lemma_le_bytes_value(timestamp_b);
    lemma_preimage_parts(
        agent_a,
        policy_hash_a,
        i64_le_bytes(timestamp_a),
        status_a.commitment_byte(),
        error_bytes(error_a),
    );
    lemma_preimage_parts(
        agent_b,
        policy_hash_b,
        i64_le_bytes(timestamp_b),
        status_b.commitment_byte(),
        error_bytes(error_b),
    );
    lemma_i64_le_bytes_injective(timestamp_a, timestamp_b);
    assert(error_bytes(error_a) == encode_utf8(error_text(error_a)));
    assert(error_bytes(error_b) == encode_utf8(error_text(error_b)));
    encode_utf8_decode_utf8(error_text(error_a));
    encode_utf8_decode_utf8(error_text(error_b));
}

/// Each part of a preimage can be read back from fixed positions of the
/// whole.
proof fn lemma_preimage_parts(
    agent_id: Seq<u8>,
    policy_hash: Seq<u8>,
    timestamp: Seq<u8>,
    status: u8,
    error: Seq<u8>,
)
    requires
        agent_id.len() == 32,
        policy_hash.len() == 32,
        timestamp.len() == 8,
    ensures
        ({
            let whole = agent_id + policy_hash + timestamp + seq![status] + error;
            &&& agent_id == whole.subrange(0, 32)
            &&& policy_hash == whole.subrange(32, 64)
            &&& timestamp == whole.subrange(64, 72)
            &&& status == whole[72]
            &&& error == whole.skip(73)
        }),
{
    let whole = agent_id + policy_hash + timestamp + seq![status] + error;
    assert(agent_id =~= whole.subrange(0, 32));
    assert(policy_hash =~= whole.subrange(32, 64));
    assert(timestamp =~= whole.subrange(64, 72));
    assert(error =~= whole.skip(73));
}

/// A receipt whose stored hash is the commitment computed from its own fields
/// passes verification.
pub proof fn lemma_sealed_receipt_is_consistent(receipt: &ExecutionReceipt)
    requires
        receipt.execution_hash@ == execution_commitment(
            receipt.agent_id@,
            receipt.policy_hash@,
            receipt.timestamp_unix_ms,
            receipt.status,
            receipt.error.deep_view(),
        ),
    ensures
        receipt.is_consistent(),
{
}

/// Changing a committed field of a consistent receipt while keeping its hash
/// gives a receipt that fails verification, unless SHA-256 collides on the
/// two preimages.
pub proof fn lemma_tampered_receipt_is_inconsistent(
    sealed: &ExecutionReceipt,
    tampered: &ExecutionReceipt,
)
    requires
        sealed.is_consistent(),
        tampered.execution_hash@ == sealed.execution_hash@,
        differ_in_committed_fields(sealed, tampered),
        collision_free(sealed.preimage(), tampered.preimage()),
    ensures
        sealed.preimage() != tampered.preimage(),
        !tampered.is_consistent(),
{
    if sealed.preimage() == tampered.preimage() {
        lemma_preimage_injective(
            sealed.agent_id@,
            sealed.policy_hash@,
            sealed.timestamp_unix_ms,
            sealed.status,
            sealed.error.deep_view(),
            tampered.agent_id@,
            tampered.policy_hash@,
            tampered.timestamp_unix_ms,
            tampered.status,
            tampered.error.deep_view(),
        );
    }
}

/// The commitment depends on the values of its arguments alone: outcomes
/// with the same bytes, timestamp, status and error commit to the same hash.
pub proof fn lemma_commitment_is_deterministic(
    agent_a: &Pubkey,
    policy_hash_a: &[u8; 32],
    timestamp_a: i64,
    status_a: &ExecutionStatus,
    error_a: &Option<String>,
    agent_b: &Pubkey,
    policy_hash_b: &[u8; 32],
    timestamp_b: i64,
    status_b: &ExecutionStatus,
    error_b: &Option<String>,
)
    requires
        agent_a@ == agent_b@,
        policy_hash_a@ == policy_hash_b@,
        timestamp_a == timestamp_b,
        status_a == status_b,
        error_a.deep_view() == error_b.deep_view(),
    ensures
        execution_commitment(
            agent_a@,
            policy_hash_a@,
            timestamp_a,
            *status_a,
            error_a.deep_view(),
        ) == execution_commitment(
            agent_b@,
            policy_hash_b@,
            timestamp_b,
            *status_b,
            error_b.deep_view(),
        ),
{
}

/// An absent error and an empty error message commit to the same hash.
pub proof fn lemma_absent_error_commits_as_empty(
    agent_id: Seq<u8>,
    policy_hash: Seq<u8>,
    timestamp_unix_ms: i64,
    status: ExecutionStatus,
)
    ensures
        execution_commitment(agent_id, policy_hash, timestamp_unix_ms, status, None)
            == execution_commitment(
            agent_id,
            policy_hash,
            timestamp_unix_ms,
            status,
            Some(Seq::<char>::empty()),
        ),
{
    assert(error_bytes(Some(Seq::<char>::empty())) =~= error_bytes(None));
}

} // verus!
