//! Byte buffers for outgoing messages.

use bytes::BufMut;
use bytes::BytesMut;
use vstd::prelude::*;

verus! {

/// `bytes::BytesMut`: a byte buffer, known by [`buffered`] and [`made_for`].
#[verifier::external_type_specification]
#[verifier::external_body]
pub struct ExBytesMut(bytes::BytesMut);

/// The bytes that a buffer holds.
pub uninterp spec fn buffered(buffer: bytes::BytesMut) -> Seq<u8>;

/// The number of bytes that a buffer was made for.
pub uninterp spec fn made_for(buffer: bytes::BytesMut) -> nat;

/// `BytesMut::with_capacity`: an empty buffer made for `capacity` bytes. No
/// allocation can be larger than `isize::MAX` bytes.
#[verifier::external_body]
pub(crate) fn empty_buffer(capacity: usize) -> (buffer: BytesMut)
    requires
        capacity <= isize::MAX,
    ensures
        buffered(buffer) == Seq::<u8>::empty(),
        made_for(buffer) == capacity,
{
    BytesMut::with_capacity(capacity)
}

/// `BytesMut::put_u32`: appends the four bytes of `n`, the most significant one
/// first.
#[verifier::external_body]
pub(crate) fn put_u32(buffer: &mut BytesMut, n: u32)
    requires
        buffered(*old(buffer)).len() + 4 <= made_for(*old(buffer)),
    ensures
        buffered(*final(buffer)) == buffered(*old(buffer)) + big_endian(n as nat),
        made_for(*final(buffer)) == made_for(*old(buffer)),
{
    buffer.put_u32(n);
}

/// `BytesMut::extend_from_slice`: appends the bytes of `extend`.
#[verifier::external_body]
pub(crate) fn put_slice(buffer: &mut BytesMut, extend: &[u8])
    requires
        buffered(*old(buffer)).len() + extend@.len() <= made_for(*old(buffer)),
    ensures
        buffered(*final(buffer)) == buffered(*old(buffer)) + extend@,
        made_for(*final(buffer)) == made_for(*old(buffer)),
{
    buffer.extend_from_slice(extend);
}

/// A number below 2^32 as four bytes, the most significant one first.
pub open spec fn big_endian(n: nat) -> Seq<u8> {
    seq![
        (n / 0x100_0000 % 0x100) as u8,
        (n / 0x1_0000 % 0x100) as u8,
        (n / 0x100 % 0x100) as u8,
        (n % 0x100) as u8,
    ]
}

/// The number that four bytes stand for, the most significant one first.
pub open spec fn big_endian_value(prefix: Seq<u8>) -> nat {
    (prefix[0] * 0x100_0000 + prefix[1] * 0x1_0000 + prefix[2] * 0x100 + prefix[3]) as nat
}

/// Four bytes stand for the number that they were written for.
pub proof fn law_big_endian_read_back(n: nat)
    requires
        n < 0x1_0000_0000,
    ensures
        big_endian(n).len() == 4,
        big_endian_value(big_endian(n)) == n,
{
    let a = n / 0x100_0000;
    let b = n / 0x1_0000;
    let c = n / 0x100;
    assert(b == a * 0x100 + b % 0x100);
    assert(c == b * 0x100 + c % 0x100);
    assert(n == c * 0x100 + n % 0x100);
}

/// The bytes of a number are its digits to the base 256, the most significant
/// one first, and any four bytes stand for the number with these digits.
pub proof fn law_big_endian_digits(n: nat, bytes: Seq<u8>)
    requires
        n < 0x1_0000_0000,
        bytes.len() == 4,
    ensures
        big_endian(n).len() == 4,
        n == ((big_endian(n)[0] * 0x100 + big_endian(n)[1]) * 0x100 + big_endian(n)[2]) * 0x100
            + big_endian(n)[3],
        big_endian_value(bytes) == ((bytes[0] * 0x100 + bytes[1]) * 0x100 + bytes[2]) * 0x100
            + bytes[3],
{
    law_big_endian_read_back(n);
}

} // verus!
