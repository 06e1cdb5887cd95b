//! Numbers, dates and addresses as the ledger stores them and as
//! instructions carry them: integers in eight bytes, least significant
//! first; an optional value behind a byte that is 1 where it is present.

use vstd::prelude::*;
use vstd::bytes::{
    lemma_auto_spec_u64_to_from_le_bytes, spec_u64_from_le_bytes, spec_u64_to_le_bytes,
    u64_from_le_bytes, u64_to_le_bytes,
};
use vstd::slice::slice_subrange;
use crate::pubkey::Pubkey;

verus! {

/// The eight bytes of an unsigned number.
pub open spec fn u64_bytes(x: u64) -> Seq<u8> {
    spec_u64_to_le_bytes(x)
}

/// The unsigned number that eight bytes stand for.
pub open spec fn u64_of(bytes: Seq<u8>) -> u64 {
    spec_u64_from_le_bytes(bytes)
}

/// The eight bytes of a signed number, in two's complement.
pub open spec fn i64_bytes(x: i64) -> Seq<u8> {
    spec_u64_to_le_bytes(x as u64)
}

/// The signed number that eight bytes stand for.
pub open spec fn i64_of(bytes: Seq<u8>) -> i64 {
    spec_u64_from_le_bytes(bytes) as i64
}

/// The bytes of an optional date: a zero byte for none, else a one and the
/// date.
pub open spec fn date_bytes(date: Option<i64>) -> Seq<u8> {
    match date {
        None => seq![0u8],
        Some(d) => seq![1u8] + i64_bytes(d),
    }
}

/// Eight bytes read back give the number that was written.
pub proof fn lemma_number_bytes(x: u64, y: i64)
    ensures
        u64_bytes(x).len() == 8,
        u64_of(u64_bytes(x)) == x,
        i64_bytes(y).len() == 8,
        i64_of(i64_bytes(y)) == y,
{
    lemma_auto_spec_u64_to_from_le_bytes();
    assert((y as u64) as i64 == y) by (bit_vector);
}

/// Appends the bytes to the buffer.
pub(crate) fn put_bytes(out: &mut Vec<u8>, bytes: &[u8])
    ensures
        final(out)@ == old(out)@ + bytes@,
{
    let n = bytes.len();
    let mut i: usize = 0;
    while i < n
        invariant
            i <= n,
            n == bytes@.len(),
            out@ == old(out)@ + bytes@.subrange(0, i as int),
        decreases n - i,
    {
        out.push(bytes[i]);
        assert(out@ =~= old(out)@ + bytes@.subrange(0, i + 1));
        i += 1;
    }
    assert(bytes@.subrange(0, n as int) =~= bytes@);
}

/// Appends an unsigned number to the buffer.
pub(crate) fn put_u64(out: &mut Vec<u8>, x: u64)
    ensures
        final(out)@ == old(out)@ + u64_bytes(x),
{
    let bytes = u64_to_le_bytes(x);
    put_bytes(out, bytes.as_slice());
}

/// Appends a signed number to the buffer.
pub(crate) fn put_i64(out: &mut Vec<u8>, x: i64)
    ensures
        final(out)@ == old(out)@ + i64_bytes(x),
{
    put_u64(out, #[verifier::truncate] (x as u64));
}

/// Appends an optional date to the buffer.
pub(crate) fn put_date(out: &mut Vec<u8>, date: Option<i64>)
    ensures
        final(out)@ == old(out)@ + date_bytes(date),
{
    match date {
        None => {
            out.push(0);
            assert(out@ =~= old(out)@ + date_bytes(date));
        },
        Some(d) => {
            out.push(1);
            put_i64(out, d);
            assert(out@ =~= old(out)@ + date_bytes(date));
        },
    }
}

/// Appends an address to the buffer.
pub(crate) fn put_key(out: &mut Vec<u8>, key: &Pubkey)
    ensures
        final(out)@ == old(out)@ + key@,
{
    put_bytes(out, key.bytes.as_slice());
}

/// The unsigned number in the eight bytes from `at` on.
pub(crate) fn get_u64(data: &[u8], at: usize) -> (x: u64)
    requires
        at + 8 <= data@.len(),
    ensures
        x == u64_of(data@.subrange(at as int, at + 8)),
{
    let n = data.len();
    u64_from_le_bytes(slice_subrange(data, at, at + 8))
}

/// The signed number in the eight bytes from `at` on.
pub(crate) fn get_i64(data: &[u8], at: usize) -> (x: i64)
    requires
        at + 8 <= data@.len(),
    ensures
        x == i64_of(data@.subrange(at as int, at + 8)),
{
    #[verifier::truncate]
    (get_u64(data, at) as i64)
}

/// The address in the thirty-two bytes from `at` on.
pub(crate) fn get_key(data: &[u8], at: usize) -> (key: Pubkey)
    requires
        at + 32 <= data@.len(),
    ensures
        key@ == data@.subrange(at as int, at + 32),
{
    let n = data.len();
    let mut bytes = [0u8; 32];
    let mut i: usize = 0;
    while i < 32
        invariant
            i <= 32,
            at + 32 <= data@.len() == n,
            forall|j: int| 0 <= j < i ==> bytes@[j] == data@[at + j],
        decreases 32 - i,
    {
        bytes[i] = data[at + i];
        i += 1;
    }
    assert(bytes@ =~= data@.subrange(at as int, at + 32));
    Pubkey { bytes }
}

/// Whether the bytes begin with the eight bytes of the tag.
pub open spec fn spec_has_tag(data: Seq<u8>, tag: Seq<u8>) -> bool {
    data.len() >= 8 && data.subrange(0, 8) == tag
}

/// Whether the bytes begin with the eight bytes of the tag.
pub(crate) fn has_tag(data: &[u8], tag: &[u8; 8]) -> (r: bool)
    ensures
        r == spec_has_tag(data@, tag@),
{
    if data.len() < 8 {
        return false;
    }
    let mut i: usize = 0;
    while i < 8
        invariant
            i <= 8,
            data@.len() >= 8,
            forall|j: int| 0 <= j < i ==> data@[j] == tag@[j],
        decreases 8 - i,
    {
        if data[i] != tag[i] {
            assert(data@.subrange(0, 8)[i as int] != tag@[i as int]);
            return false;
        }
        i += 1;
    }
    assert(data@.subrange(0, 8) =~= tag@);
    true
}

} // verus!
