//! Values as the bytes that the GPU reads.
//!
//! Buffers and textures are filled from host memory as it is: each value's
//! bytes in the byte order of the machine. Which order that is cannot be
//! known here, so the contracts name both.

use vstd::prelude::*;

verus! {

/// 256 to the power `k`.
pub open spec fn radix(k: nat) -> nat
    decreases k,
{
    if k == 0 {
        1
    } else {
        256 * radix((k - 1) as nat)
    }
}

/// Byte `k` of `value`, counted from the least significant.
pub open spec fn byte_of(value: nat, k: nat) -> u8 {
    ((value / radix(k)) % 256) as u8
}

/// The bytes of `values`, each `size` bytes wide, least significant byte first.
pub open spec fn little_endian(values: Seq<nat>, size: nat) -> Seq<u8> {
    Seq::new(
        values.len() * size,
        |i: int| byte_of(values[i / size as int], (i % size as int) as nat),
    )
}

/// The bytes of `values`, each `size` bytes wide, most significant byte first.
pub open spec fn big_endian(values: Seq<nat>, size: nat) -> Seq<u8> {
    Seq::new(
        values.len() * size,
        |i: int| byte_of(values[i / size as int], (size - 1 - i % size as int) as nat),
    )
}

/// `bytes` is what memory holds for `values`, each `size` bytes wide, on a
/// machine of either byte order.
pub open spec fn is_memory_of(bytes: Seq<u8>, values: Seq<nat>, size: nat) -> bool {
    bytes == little_endian(values, size) || bytes == big_endian(values, size)
}

/// 32-bit words as numbers.
pub open spec fn words_as_nats(words: Seq<u32>) -> Seq<nat> {
    Seq::new(words.len(), |i: int| words[i] as nat)
}

/// 16-bit samples as numbers.
pub open spec fn samples_as_nats(samples: Seq<u16>) -> Seq<nat> {
    Seq::new(samples.len(), |i: int| samples[i] as nat)
}

/// `bytemuck::cast_slice` from 32-bit words to bytes. The cast reinterprets
/// the words' memory in place: four bytes for each word, in the order of the
/// words, each word's bytes in the machine's byte order. A cast to bytes
/// never fails, whatever the length or address of the input.
#[verifier::external_body]
pub(crate) fn words_as_bytes(words: &[u32]) -> (bytes: &[u8])
    ensures
        is_memory_of(bytes@, words_as_nats(words@), 4),
{
    bytemuck::cast_slice(words)
}

/// `bytemuck::cast_slice` from 16-bit samples to bytes. The cast
/// reinterprets the samples' memory in place: two bytes for each sample, in
/// the order of the samples, each sample's bytes in the machine's byte
/// order. A cast to bytes never fails, whatever the length or address of the
/// input.
#[verifier::external_body]
pub(crate) fn samples_as_bytes(samples: &[u16]) -> (bytes: &[u8])
    ensures
        is_memory_of(bytes@, samples_as_nats(samples@), 2),
{
    bytemuck::cast_slice(samples)
}

} // verus!
