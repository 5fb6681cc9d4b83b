//! Big-endian byte strings and the 32-byte words of the ABI layout.
//!
//! Every static ABI value occupies one word of 32 bytes. An unsigned integer
//! is written most significant byte first and padded with zero bytes on the
//! left, an address is padded with twelve zero bytes on the left, a boolean is
//! the integer 0 or 1, and a `bytes32` value is the word itself.

use vstd::prelude::*;

verus! {

/// 256 to the power `n`.
pub open spec fn pow256(n: nat) -> nat
    decreases n,
{
    if n == 0 {
        1
    } else {
        256 * pow256((n - 1) as nat)
    }
}

/// The number that `bytes` spell in base 256, most significant byte first.
pub open spec fn be_value(bytes: Seq<u8>) -> nat
    decreases bytes.len(),
{
    if bytes.len() == 0 {
        0
    } else {
        256 * be_value(bytes.drop_last()) + bytes.last() as nat
    }
}

/// The `len` lowest base-256 digits of `value`, most significant digit first.
pub open spec fn be_bytes(value: nat, len: nat) -> Seq<u8>
    decreases len,
{
    if len == 0 {
        Seq::empty()
    } else {
        be_bytes(value / 256, (len - 1) as nat).push((value % 256) as u8)
    }
}

/// `len` zero bytes.
pub open spec fn zeros(len: nat) -> Seq<u8> {
    Seq::new(len, |i: int| 0u8)
}

/// Whether every byte of `bytes` is zero.
pub open spec fn is_zero(bytes: Seq<u8>) -> bool {
    forall|i: int| 0 <= i < bytes.len() ==> bytes[i] == 0
}

/// The word of an unsigned integer below 2^256.
pub open spec fn uint_word(value: nat) -> Seq<u8> {
    be_bytes(value, 32)
}

/// The word of a 20-byte address.
pub open spec fn address_word(address: Seq<u8>) -> Seq<u8> {
    zeros(12) + address
}

/// The word of a boolean.
pub open spec fn bool_word(flag: bool) -> Seq<u8> {
    zeros(31).push(if flag { 1u8 } else { 0u8 })
}

/// The unsigned 64-bit integer that a word holds, where the word is the
/// canonical encoding of one: its 24 leading bytes are zero.
pub open spec fn word_to_u64(word: Seq<u8>) -> Option<u64> {
    if word.len() == 32 && is_zero(word.subrange(0, 24)) {
        Some(be_value(word.subrange(24, 32)) as u64)
    } else {
        None
    }
}

/// The address that a word holds, where the word is the canonical encoding
/// of one: its 12 leading bytes are zero.
pub open spec fn word_to_address(word: Seq<u8>) -> Option<Seq<u8>> {
    if word.len() == 32 && is_zero(word.subrange(0, 12)) {
        Some(word.subrange(12, 32))
    } else {
        None
    }
}

/// Eight bytes hold exactly the 64-bit integers.
pub proof fn lemma_pow256_8()
    ensures
        pow256(8) == 0x1_0000_0000_0000_0000,
{
    reveal_with_fuel(pow256, 9);
}

/// `be_bytes` yields as many bytes as it is asked for.
pub proof fn lemma_be_bytes_len(value: nat, len: nat)
    ensures
        be_bytes(value, len).len() == len,
    decreases len,
{
    if len > 0 {
        lemma_be_bytes_len(value / 256, (len - 1) as nat);
    }
}

/// A string of `n` bytes spells a number below 256^n.
pub proof fn lemma_be_value_bound(bytes: Seq<u8>)
    ensures
        be_value(bytes) < pow256(bytes.len()),
    decreases bytes.len(),
{
    if bytes.len() > 0 {
        lemma_be_value_bound(bytes.drop_last());
    }
}

/// Reading back the digits of a number that fits gives the number.
pub proof fn lemma_be_value_of_be_bytes(value: nat, len: nat)
    requires
        value < pow256(len),
    ensures
        be_value(be_bytes(value, len)) == value,
    decreases len,
{
    if len > 0 {
        let rest = be_bytes(value / 256, (len - 1) as nat);
        lemma_be_value_of_be_bytes(value / 256, (len - 1) as nat);
        assert(be_bytes(value, len).drop_last() =~= rest);
    }
}

/// Writing the number that a string spells, on as many bytes, gives the
/// string.
pub proof fn lemma_be_bytes_of_be_value(bytes: Seq<u8>)
    ensures
        be_bytes(be_value(bytes), bytes.len()) == bytes,
    decreases bytes.len(),
{
    if bytes.len() > 0 {
        lemma_be_bytes_of_be_value(bytes.drop_last());
        assert(bytes.drop_last().push(bytes.last()) =~= bytes);
    } else {
        assert(bytes =~= Seq::<u8>::empty());
    }
}

/// The digits of zero are zero bytes.
pub proof fn lemma_be_bytes_of_zero(len: nat)
    ensures
        be_bytes(0, len) == zeros(len),
    decreases len,
{
    if len > 0 {
        lemma_be_bytes_of_zero((len - 1) as nat);
        assert(zeros((len - 1) as nat).push(0u8) =~= zeros(len));
    } else {
        assert(zeros(0) =~= Seq::<u8>::empty());
    }
}

/// A number that fits in `digits` bytes is written on `len` bytes as zero
/// padding followed by its `digits` bytes.
pub proof fn lemma_be_bytes_padding(value: nat, len: nat, digits: nat)
    requires
        digits <= len,
        value < pow256(digits),
    ensures
        be_bytes(value, len) == zeros((len - digits) as nat) + be_bytes(value, digits),
    decreases digits,
{
    if digits == 0 {
        lemma_be_bytes_of_zero(len);
        assert(zeros(len) + Seq::<u8>::empty() =~= zeros(len));
    } else {
        lemma_be_bytes_padding(value / 256, (len - 1) as nat, (digits - 1) as nat);
        let pad = zeros((len - digits) as nat);
        let low = be_bytes(value / 256, (digits - 1) as nat);
        assert((pad + low).push((value % 256) as u8) =~= pad + low.push((value % 256) as u8));
    }
}

/// The number that a concatenation spells.
pub proof fn lemma_be_value_concat(high: Seq<u8>, low: Seq<u8>)
    ensures
        be_value(high + low) == be_value(high) * pow256(low.len()) + be_value(low),
    decreases low.len(),
{
    if low.len() == 0 {
        assert(high + low =~= high);
        assert(be_value(high) * pow256(0) == be_value(high)) by (nonlinear_arith)
            requires
                pow256(0) == 1,
        ;
    } else {
        lemma_be_value_concat(high, low.drop_last());
        assert((high + low).drop_last() =~= high + low.drop_last());
        let h = be_value(high);
        let p = pow256((low.len() - 1) as nat);
        let q = pow256(low.len());
        assert(q == 256 * p);
        assert(256 * (h * p) == h * q) by (nonlinear_arith)
            requires
                q == 256 * p,
        ;
    }
}

/// The eight last bytes of a string spell its value modulo 2^64.
pub proof fn lemma_be_value_low_u64(bytes: Seq<u8>)
    requires
        bytes.len() >= 8,
    ensures
        be_value(bytes.subrange(bytes.len() - 8, bytes.len() as int)) == be_value(bytes)
            % 0x1_0000_0000_0000_0000,
        be_value(bytes.subrange(bytes.len() - 8, bytes.len() as int)) <= u64::MAX,
{
    let n = bytes.len() as int;
    let high = bytes.subrange(0, n - 8);
    let low = bytes.subrange(n - 8, n);
    assert(high + low =~= bytes);
    lemma_be_value_concat(high, low);
    lemma_be_value_bound(low);
    lemma_pow256_8();
    vstd::arithmetic::div_mod::lemma_fundamental_div_mod_converse(
        be_value(bytes) as int,
        0x1_0000_0000_0000_0000,
        be_value(high) as int,
        be_value(low) as int,
    );
}

/// The word of a 64-bit integer: 24 zero bytes, then its eight bytes.
pub proof fn lemma_uint_word_of_u64(value: u64)
    ensures
        uint_word(value as nat) == zeros(24) + be_bytes(value as nat, 8),
        uint_word(value as nat).len() == 32,
        word_to_u64(uint_word(value as nat)) == Some(value),
{
    lemma_pow256_8();
    lemma_be_bytes_padding(value as nat, 32, 8);
    lemma_be_bytes_len(value as nat, 8);
    lemma_be_value_of_be_bytes(value as nat, 8);
    let word = uint_word(value as nat);
    assert(word.subrange(0, 24) =~= zeros(24));
    assert(word.subrange(24, 32) =~= be_bytes(value as nat, 8));
}

/// A word that holds a 64-bit integer is the word of that integer.
pub proof fn lemma_word_to_u64_canonical(word: Seq<u8>)
    requires
        word_to_u64(word) is Some,
    ensures
        uint_word(word_to_u64(word).unwrap() as nat) == word,
{
    let low = word.subrange(24, 32);
    lemma_pow256_8();
    lemma_be_value_bound(low);
    lemma_be_bytes_padding(be_value(low), 32, 8);
    lemma_be_bytes_of_be_value(low);
    assert forall|i: int| 0 <= i < 24 implies word[i] == 0 by {
        assert(word.subrange(0, 24)[i] == word[i]);
    }
    assert(zeros(24) + low =~= word);
}

/// The word of an address holds that address.
pub proof fn lemma_address_word(address: Seq<u8>)
    requires
        address.len() == 20,
    ensures
        address_word(address).len() == 32,
        word_to_address(address_word(address)) == Some(address),
{
    let word = address_word(address);
    assert(word.subrange(0, 12) =~= zeros(12));
    assert(word.subrange(12, 32) =~= address);
}

/// A word that holds an address is the word of that address.
pub proof fn lemma_word_to_address_canonical(word: Seq<u8>)
    requires
        word_to_address(word) is Some,
    ensures
        address_word(word_to_address(word).unwrap()) == word,
        word_to_address(word).unwrap().len() == 20,
{
    assert forall|i: int| 0 <= i < 12 implies word[i] == 0 by {
        assert(word.subrange(0, 12)[i] == word[i]);
    }
    assert(zeros(12) + word.subrange(12, 32) =~= word);
}

} // verus!
