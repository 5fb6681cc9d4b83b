//! The public output of a successful run and its byte layout.
//!
//! The output is a tuple of six static ABI values, one word each, in a fixed
//! order: `(address signer, uint64 threshold_age, uint64 current_timestamp,
//! uint64 attest_time, address recipient, bytes32 domain_separator)`.

use vstd::prelude::*;
use alloy_sol_types::sol_data;
use alloy_sol_types::SolType;
use crate::words::{
    address_word, lemma_address_word, lemma_uint_word_of_u64, lemma_word_to_address_canonical,
    lemma_word_to_u64_canonical, uint_word, word_to_address, word_to_u64,
};

verus! {

/// What a proof makes public of a verified claim.
#[derive(Clone, Copy, Debug, PartialEq, Eq)]
pub struct PublicOutput {
    pub signer: [u8; 20],
    pub threshold_age: u64,
    pub current_timestamp: u64,
    pub attest_time: u64,
    pub recipient: [u8; 20],
    pub domain_separator: [u8; 32],
}

/// A public output as plain values.
pub struct PublicOutputView {
    pub signer: Seq<u8>,
    pub threshold_age: u64,
    pub current_timestamp: u64,
    pub attest_time: u64,
    pub recipient: Seq<u8>,
    pub domain_separator: Seq<u8>,
}

impl PublicOutputView {
    /// The fixed widths of the two addresses and of the domain separator.
    pub open spec fn wf(self) -> bool {
        &&& self.signer.len() == 20
        &&& self.recipient.len() == 20
        &&& self.domain_separator.len() == 32
    }
}

impl View for PublicOutput {
    type V = PublicOutputView;

    open spec fn view(&self) -> PublicOutputView {
        PublicOutputView {
            signer: self.signer@,
            threshold_age: self.threshold_age,
            current_timestamp: self.current_timestamp,
            attest_time: self.attest_time,
            recipient: self.recipient@,
            domain_separator: self.domain_separator@,
        }
    }
}

/// The tuple type of the public output.
type OutputTuple = (
    sol_data::Address,
    sol_data::Uint<64>,
    sol_data::Uint<64>,
    sol_data::Uint<64>,
    sol_data::Address,
    sol_data::FixedBytes<32>,
);

/// The error of the tuple decoder.
#[verifier::external_type_specification]
#[verifier::external_body]
pub struct ExSolError(alloy_sol_types::Error);

/// The six words of a public output.
pub open spec fn public_output_encoding(output: PublicOutputView) -> Seq<u8> {
    address_word(output.signer) + uint_word(output.threshold_age as nat) + uint_word(
        output.current_timestamp as nat,
    ) + uint_word(output.attest_time as nat) + address_word(output.recipient)
        + output.domain_separator
}

/// The public output that a byte string is the layout of: defined for
/// strings of exactly six words in which every address and every integer is
/// padded with zero bytes.
pub open spec fn public_output_decoding(bytes: Seq<u8>) -> Option<PublicOutputView> {
    if bytes.len() != 192 {
        None
    } else {
        let signer = word_to_address(bytes.subrange(0, 32));
        let threshold_age = word_to_u64(bytes.subrange(32, 64));
        let current_timestamp = word_to_u64(bytes.subrange(64, 96));
        let attest_time = word_to_u64(bytes.subrange(96, 128));
        let recipient = word_to_address(bytes.subrange(128, 160));
        if signer is Some && threshold_age is Some && current_timestamp is Some
            && attest_time is Some && recipient is Some {
            Some(
                PublicOutputView {
                    signer: signer.unwrap(),
                    threshold_age: threshold_age.unwrap(),
                    current_timestamp: current_timestamp.unwrap(),
                    attest_time: attest_time.unwrap(),
                    recipient: recipient.unwrap(),
                    domain_separator: bytes.subrange(160, 192),
                },
            )
        } else {
            None
        }
    }
}

/// Calls `alloy_sol_types::SolType::abi_encode` for the tuple type
/// `(address, uint64, uint64, uint64, address, bytes32)`. The six static
/// values are claimed to occupy one word each, in order.
#[verifier::external_body]
fn abi_encode_output(output: &PublicOutput) -> (bytes: Vec<u8>)
    ensures
        bytes@ == public_output_encoding(output@),
{
    <OutputTuple as SolType>::abi_encode(
        &(
            output.signer,
            output.threshold_age,
            output.current_timestamp,
            output.attest_time,
            output.recipient,
            output.domain_separator,
        ),
    )
}

/// Calls `alloy_sol_types::SolType::abi_decode`, with validation, for the
/// tuple type `(address, uint64, uint64, uint64, address, bytes32)`. With
/// validation the decoder is claimed to accept exactly the strings that are
/// the layout of a tuple: six words, zero padding before each address and
/// each integer.
#[verifier::external_body]
fn abi_decode_output(data: &[u8]) -> (output: Result<PublicOutput, alloy_sol_types::Error>)
    ensures
        match output {
            Ok(o) => public_output_decoding(data@) == Some(o@),
            Err(_) => public_output_decoding(data@) is None,
        },
{
    let fields = <OutputTuple as SolType>::abi_decode(data, true)?;
    Ok(
        PublicOutput {
            signer: fields.0.0.0,
            threshold_age: fields.1,
            current_timestamp: fields.2,
            attest_time: fields.3,
            recipient: fields.4.0.0,
            domain_separator: fields.5.0,
        },
    )
}

/// Decoding the layout of a public output gives the output back.
pub proof fn lemma_decode_encode(output: PublicOutputView)
    requires
        output.wf(),
    ensures
        public_output_encoding(output).len() == 192,
        public_output_decoding(public_output_encoding(output)) == Some(output),
{
    let bytes = public_output_encoding(output);
    lemma_address_word(output.signer);
    lemma_uint_word_of_u64(output.threshold_age);
    lemma_uint_word_of_u64(output.current_timestamp);
    lemma_uint_word_of_u64(output.attest_time);
    lemma_address_word(output.recipient);
    assert(bytes.subrange(0, 32) =~= address_word(output.signer));
    assert(bytes.subrange(32, 64) =~= uint_word(output.threshold_age as nat));
    assert(bytes.subrange(64, 96) =~= uint_word(output.current_timestamp as nat));
    assert(bytes.subrange(96, 128) =~= uint_word(output.attest_time as nat));
    assert(bytes.subrange(128, 160) =~= address_word(output.recipient));
    assert(bytes.subrange(160, 192) =~= output.domain_separator);
}

/// A byte string that decodes is the layout of what it decodes to: no two
/// strings decode to the same output.
pub proof fn lemma_encode_decode(bytes: Seq<u8>)
    requires
        public_output_decoding(bytes) is Some,
    ensures
        public_output_decoding(bytes).unwrap().wf(),
        public_output_encoding(public_output_decoding(bytes).unwrap()) == bytes,
{
    let output = public_output_decoding(bytes).unwrap();
    lemma_word_to_address_canonical(bytes.subrange(0, 32));
    lemma_word_to_u64_canonical(bytes.subrange(32, 64));
    lemma_word_to_u64_canonical(bytes.subrange(64, 96));
    lemma_word_to_u64_canonical(bytes.subrange(96, 128));
    lemma_word_to_address_canonical(bytes.subrange(128, 160));
    assert(public_output_encoding(output) =~= bytes.subrange(0, 32) + bytes.subrange(32, 64)
        + bytes.subrange(64, 96) + bytes.subrange(96, 128) + bytes.subrange(128, 160)
        + bytes.subrange(160, 192));
    assert(public_output_encoding(output) =~= bytes);
}

/// Two public outputs with the same layout are the same.
pub proof fn lemma_encoding_injective(a: PublicOutputView, b: PublicOutputView)
    requires
        a.wf(),
        b.wf(),
        public_output_encoding(a) == public_output_encoding(b),
    ensures
        a == b,
{
    lemma_decode_encode(a);
    lemma_decode_encode(b);
}

/// An output is determined by its plain values: what decodes to the values
/// of an output is that output.
pub proof fn lemma_view_injective(a: PublicOutput, b: PublicOutput)
    requires
        a@ == b@,
    ensures
        a == b,
{
    assert(a.signer =~= b.signer);
    assert(a.recipient =~= b.recipient);
    assert(a.domain_separator =~= b.domain_separator);
}

impl PublicOutput {
    /// Lays the output out as six words.
    pub fn encode(&self) -> (bytes: Vec<u8>)
        ensures
            bytes@ == public_output_encoding(self@),
            bytes@.len() == 192,
            public_output_decoding(bytes@) == Some(self@),
    {
        let bytes = abi_encode_output(self);
        proof {
            lemma_decode_encode(self@);
        }
        bytes
    }

    /// Reads an output back from its layout. Any byte string that is not
    /// the layout of an output gives `None`.
    pub fn decode(bytes: &[u8]) -> (output: Option<PublicOutput>)
        ensures
            match output {
                Some(o) => public_output_decoding(bytes@) == Some(o@),
                None => public_output_decoding(bytes@) is None,
            },
            output matches Some(o) ==> public_output_encoding(o@) == bytes@,
    {
        match abi_decode_output(bytes) {
            Ok(output) => {
                proof {
                    lemma_encode_decode(bytes@);
                }
                Some(output)
            },
            Err(_) => None,
        }
    }
}

/// Lays out the public output of a run.
pub fn encode(
    signer: &[u8; 20],
    threshold_age: u64,
    current_timestamp: u64,
    attest_time: u64,
    recipient: &[u8; 20],
    domain_separator: &[u8; 32],
) -> (bytes: Vec<u8>)
    ensures
        bytes@ == public_output_encoding(
            PublicOutputView {
                signer: signer@,
                threshold_age,
                current_timestamp,
                attest_time,
                recipient: recipient@,
                domain_separator: domain_separator@,
            },
        ),
        bytes@.len() == 192,
{
    let output = PublicOutput {
        signer: *signer,
        threshold_age,
        current_timestamp,
        attest_time,
        recipient: *recipient,
        domain_separator: *domain_separator,
    };
    output.encode()
}

} // verus!
