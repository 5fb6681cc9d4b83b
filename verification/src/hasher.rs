//! The typed-data digest of an attestation record.
//!
//! The digest is computed in two stages. The record's fields are laid out as
//! ten words behind the type hash and hashed into the struct hash; the struct
//! hash is then hashed behind a two-byte prefix and the domain separator.
//! The payload enters the layout through its own hash.

use vstd::prelude::*;
use vstd::string::StringSliceAdditionalSpecFns;
use ethers_core::abi::Token;
use ethers_core::types::{H160, U256};
use crate::words::{
    address_word, bool_word, lemma_address_word, lemma_be_bytes_len, lemma_uint_word_of_u64,
    uint_word,
};

verus! {

/// The canonical signature string of the attestation's structured type.
pub const ATTEST_TYPE: &'static str =
    "Attest(uint16 version,bytes32 schema,address recipient,uint64 time,uint64 expirationTime,bool revocable,bytes32 refUID,bytes data,bytes32 salt)";

/// The two bytes that the preimage of the final hash starts with.
pub const PREFIX: [u8; 2] = [0x19, 0x01];

/// A signed claim's content: who it is about, under which schema, when it
/// was made, and an opaque payload.
#[derive(Clone, Debug, PartialEq, Eq)]
pub struct AttestationRecord {
    pub version: u16,
    pub schema: [u8; 32],
    pub recipient: [u8; 20],
    pub time: u64,
    pub expiration_time: u64,
    pub revocable: bool,
    pub ref_uid: [u8; 32],
    pub data: Vec<u8>,
    pub salt: [u8; 32],
}

/// An attestation record as plain values.
pub struct AttestationRecordView {
    pub version: u16,
    pub schema: Seq<u8>,
    pub recipient: Seq<u8>,
    pub time: u64,
    pub expiration_time: u64,
    pub revocable: bool,
    pub ref_uid: Seq<u8>,
    pub data: Seq<u8>,
    pub salt: Seq<u8>,
}

impl AttestationRecordView {
    /// The fixed widths of the identifiers and of the address.
    pub open spec fn wf(self) -> bool {
        &&& self.schema.len() == 32
        &&& self.recipient.len() == 20
        &&& self.ref_uid.len() == 32
        &&& self.salt.len() == 32
    }
}

impl View for AttestationRecord {
    type V = AttestationRecordView;

    open spec fn view(&self) -> AttestationRecordView {
        AttestationRecordView {
            version: self.version,
            schema: self.schema@,
            recipient: self.recipient@,
            time: self.time,
            expiration_time: self.expiration_time,
            revocable: self.revocable,
            ref_uid: self.ref_uid@,
            data: self.data@,
            salt: self.salt@,
        }
    }
}

/// The Keccak-256 hash of a byte string.
pub uninterp spec fn keccak256_of(data: Seq<u8>) -> Seq<u8>;

/// Calls `ethers_core::utils::keccak256`. The result is taken to be a
/// function of the input bytes alone, `keccak256_of`; nothing else is claimed
/// of it.
#[verifier::external_body]
fn keccak256(data: &[u8]) -> (digest: [u8; 32])
    ensures
        digest@ == keccak256_of(data@),
{
    ethers_core::utils::keccak256(data)
}

/// Calls `ethers_core::abi::encode` on the ten static tokens of a record:
/// `bytes32`, `uint`, `bytes32`, `address`, `uint`, `uint`, `bool` and three
/// times `bytes32`. Each static token is claimed to occupy one word, in
/// order, with nothing behind them.
#[verifier::external_body]
fn abi_encode_record(
    type_hash: &[u8; 32],
    record: &AttestationRecord,
    data_hash: &[u8; 32],
) -> (encoded: Vec<u8>)
    ensures
        encoded@ == struct_encoding(type_hash@, record@, data_hash@),
{
    ethers_core::abi::encode(
        &[
            Token::FixedBytes(type_hash.to_vec()),
            Token::Uint(U256::from(record.version)),
            Token::FixedBytes(record.schema.to_vec()),
            Token::Address(H160::from(record.recipient)),
            Token::Uint(U256::from(record.time)),
            Token::Uint(U256::from(record.expiration_time)),
            Token::Bool(record.revocable),
            Token::FixedBytes(record.ref_uid.to_vec()),
            Token::FixedBytes(data_hash.to_vec()),
            Token::FixedBytes(record.salt.to_vec()),
        ],
    )
}

/// The hash of the type's signature string.
pub open spec fn spec_type_hash() -> Seq<u8> {
    keccak256_of(ATTEST_TYPE.spec_bytes())
}

/// The ten words that are hashed into the struct hash: the type hash, the
/// fields in their fixed order, with the payload replaced by its hash.
pub open spec fn struct_encoding(
    type_hash: Seq<u8>,
    record: AttestationRecordView,
    data_hash: Seq<u8>,
) -> Seq<u8> {
    type_hash + uint_word(record.version as nat) + record.schema + address_word(record.recipient)
        + uint_word(record.time as nat) + uint_word(record.expiration_time as nat) + bool_word(
        record.revocable,
    ) + record.ref_uid + data_hash + record.salt
}

/// The hash of a record's ten words.
pub open spec fn spec_struct_hash(record: AttestationRecordView) -> Seq<u8> {
    keccak256_of(struct_encoding(spec_type_hash(), record, keccak256_of(record.data)))
}

/// What the final hash is taken of: the prefix `0x19 0x01`, the domain
/// separator and the struct hash.
pub open spec fn spec_digest_preimage(domain_separator: Seq<u8>, struct_hash: Seq<u8>) -> Seq<u8> {
    PREFIX@ + domain_separator + struct_hash
}

/// The typed-data digest of a record under a domain separator.
pub open spec fn typed_data_digest(domain_separator: Seq<u8>, record: AttestationRecordView) -> Seq<
    u8,
> {
    keccak256_of(spec_digest_preimage(domain_separator, spec_struct_hash(record)))
}

/// A record's layout is ten words long.
pub proof fn lemma_struct_encoding_len(
    type_hash: Seq<u8>,
    record: AttestationRecordView,
    data_hash: Seq<u8>,
)
    requires
        record.wf(),
        type_hash.len() == 32,
        data_hash.len() == 32,
    ensures
        struct_encoding(type_hash, record, data_hash).len() == 320,
{
    lemma_be_bytes_len(record.version as nat, 32);
    lemma_be_bytes_len(record.time as nat, 32);
    lemma_be_bytes_len(record.expiration_time as nat, 32);
}

/// The layout tells records apart: two records laid out to the same bytes
/// agree in every field but the payload, and their payloads were given the
/// same hash. A change to any field other than the payload therefore
/// changes what is hashed into the struct hash.
pub proof fn lemma_struct_encoding_injective(
    type_hash: Seq<u8>,
    a: AttestationRecordView,
    a_data_hash: Seq<u8>,
    b: AttestationRecordView,
    b_data_hash: Seq<u8>,
)
    requires
        a.wf(),
        b.wf(),
        type_hash.len() == 32,
        a_data_hash.len() == 32,
        b_data_hash.len() == 32,
        struct_encoding(type_hash, a, a_data_hash) == struct_encoding(type_hash, b, b_data_hash),
    ensures
        a.version == b.version,
        a.schema == b.schema,
        a.recipient == b.recipient,
        a.time == b.time,
        a.expiration_time == b.expiration_time,
        a.revocable == b.revocable,
        a.ref_uid == b.ref_uid,
        a.salt == b.salt,
        a_data_hash == b_data_hash,
{
    lemma_record_words(type_hash, a, a_data_hash);
    lemma_record_words(type_hash, b, b_data_hash);
    lemma_uint_word_of_u64(a.version as u64);
    lemma_uint_word_of_u64(b.version as u64);
    lemma_uint_word_of_u64(a.time);
    lemma_uint_word_of_u64(b.time);
    lemma_uint_word_of_u64(a.expiration_time);
    lemma_uint_word_of_u64(b.expiration_time);
    lemma_address_word(a.recipient);
    lemma_address_word(b.recipient);
    assert(bool_word(a.revocable)[31] == bool_word(b.revocable)[31]);
}

/// Where each word of a record's layout stands.
proof fn lemma_record_words(type_hash: Seq<u8>, record: AttestationRecordView, data_hash: Seq<u8>)
    requires
        record.wf(),
        type_hash.len() == 32,
        data_hash.len() == 32,
    ensures
        ({
            let e = struct_encoding(type_hash, record, data_hash);
            &&& e.len() == 320
            &&& e.subrange(0, 32) == type_hash
            &&& e.subrange(32, 64) == uint_word(record.version as nat)
            &&& e.subrange(64, 96) == record.schema
            &&& e.subrange(96, 128) == address_word(record.recipient)
            &&& e.subrange(128, 160) == uint_word(record.time as nat)
            &&& e.subrange(160, 192) == uint_word(record.expiration_time as nat)
            &&& e.subrange(192, 224) == bool_word(record.revocable)
            &&& e.subrange(224, 256) == record.ref_uid
            &&& e.subrange(256, 288) == data_hash
            &&& e.subrange(288, 320) == record.salt
        }),
{
    lemma_be_bytes_len(record.version as nat, 32);
    lemma_be_bytes_len(record.time as nat, 32);
    lemma_be_bytes_len(record.expiration_time as nat, 32);
    let e = struct_encoding(type_hash, record, data_hash);
    assert(e.subrange(0, 32) =~= type_hash);
    assert(e.subrange(32, 64) =~= uint_word(record.version as nat));
    assert(e.subrange(64, 96) =~= record.schema);
    assert(e.subrange(96, 128) =~= address_word(record.recipient));
    assert(e.subrange(128, 160) =~= uint_word(record.time as nat));
    assert(e.subrange(160, 192) =~= uint_word(record.expiration_time as nat));
    assert(e.subrange(192, 224) =~= bool_word(record.revocable));
    assert(e.subrange(224, 256) =~= record.ref_uid);
    assert(e.subrange(256, 288) =~= data_hash);
    assert(e.subrange(288, 320) =~= record.salt);
}

/// The preimage of the final hash tells its parts apart: the same preimage
/// comes only from the same domain separator and the same struct hash.
pub proof fn lemma_digest_preimage_injective(
    a_separator: Seq<u8>,
    a_struct_hash: Seq<u8>,
    b_separator: Seq<u8>,
    b_struct_hash: Seq<u8>,
)
    requires
        a_separator.len() == 32,
        b_separator.len() == 32,
        spec_digest_preimage(a_separator, a_struct_hash) == spec_digest_preimage(
            b_separator,
            b_struct_hash,
        ),
    ensures
        a_separator == b_separator,
        a_struct_hash == b_struct_hash,
{
    let pa = spec_digest_preimage(a_separator, a_struct_hash);
    let pb = spec_digest_preimage(b_separator, b_struct_hash);
    assert(pa.subrange(2, 34) =~= a_separator);
    assert(pb.subrange(2, 34) =~= b_separator);
    assert(pa.subrange(34, pa.len() as int) =~= a_struct_hash);
    assert(pb.subrange(34, pb.len() as int) =~= b_struct_hash);
}

/// Hashes the type's signature string.
pub fn type_hash() -> (hash: [u8; 32])
    ensures
        hash@ == spec_type_hash(),
{
    keccak256(ATTEST_TYPE.as_bytes())
}

/// Hashes a payload. The payload enters a record's layout only through
/// this hash.
pub fn payload_hash(data: &Vec<u8>) -> (hash: [u8; 32])
    ensures
        hash@ == keccak256_of(data@),
{
    keccak256(data.as_slice())
}

/// Lays out the type hash, the record's fields and the payload's hash as ten
/// words.
pub fn encode_struct(
    type_hash: &[u8; 32],
    record: &AttestationRecord,
    data_hash: &[u8; 32],
) -> (encoded: Vec<u8>)
    ensures
        encoded@ == struct_encoding(type_hash@, record@, data_hash@),
        encoded@.len() == 320,
{
    let encoded = abi_encode_record(type_hash, record, data_hash);
    proof {
        lemma_struct_encoding_len(type_hash@, record@, data_hash@);
    }
    encoded
}

/// Hashes a record's ten words.
pub fn struct_hash(record: &AttestationRecord) -> (hash: [u8; 32])
    ensures
        hash@ == spec_struct_hash(record@),
{
    let type_hash = type_hash();
    let data_hash = payload_hash(&record.data);
    let encoded = encode_struct(&type_hash, record, &data_hash);
    keccak256(encoded.as_slice())
}

/// Joins the prefix, the domain separator and the struct hash.
pub fn digest_preimage(domain_separator: &[u8; 32], struct_hash: &[u8; 32]) -> (preimage: Vec<u8>)
    ensures
        preimage@ == spec_digest_preimage(domain_separator@, struct_hash@),
        preimage@.len() == 66,
{
    let mut preimage: Vec<u8> = Vec::new();
    preimage.extend_from_slice(&PREFIX);
    preimage.extend_from_slice(domain_separator);
    preimage.extend_from_slice(struct_hash);
    assert(preimage@ =~= PREFIX@ + domain_separator@ + struct_hash@);
    preimage
}

/// Computes the typed-data digest of `message` under `domain_separator`.
pub fn hash_message(domain_separator: &[u8; 32], message: &AttestationRecord) -> (digest: [u8; 32])
    ensures
        digest@ == typed_data_digest(domain_separator@, message@),
{
    let hashed_message = struct_hash(message);
    let combined = digest_preimage(domain_separator, &hashed_message);
    keccak256(combined.as_slice())
}

} // verus!
