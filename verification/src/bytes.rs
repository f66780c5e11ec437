//! Fixed-width byte handling: big-endian integers, copies and comparisons.

use vstd::prelude::*;

verus! {

/// Big-endian bytes of a 16-bit integer.
pub open spec fn u16_be(value: u16) -> Seq<u8> {
    seq![(value / 0x0100) as u8, (value % 0x0100) as u8]
}

/// Big-endian bytes of a 32-bit integer.
pub open spec fn u32_be(value: u32) -> Seq<u8> {
    seq![
        (value / 0x0100_0000) as u8,
        (value / 0x0001_0000 % 0x0100) as u8,
        (value / 0x0100 % 0x0100) as u8,
        (value % 0x0100) as u8,
    ]
}

/// Big-endian bytes of a 64-bit integer.
pub open spec fn u64_be(value: u64) -> Seq<u8> {
    seq![
        (value / 0x0100_0000_0000_0000) as u8,
        (value / 0x0001_0000_0000_0000 % 0x0100) as u8,
        (value / 0x0000_0100_0000_0000 % 0x0100) as u8,
        (value / 0x0000_0001_0000_0000 % 0x0100) as u8,
        (value / 0x0100_0000 % 0x0100) as u8,
        (value / 0x0001_0000 % 0x0100) as u8,
        (value / 0x0100 % 0x0100) as u8,
        (value % 0x0100) as u8,
    ]
}

/// Number that two big-endian bytes stand for.
pub open spec fn be_u16(bytes: Seq<u8>) -> int {
    bytes[0] * 0x0100 + bytes[1]
}

/// Number that eight big-endian bytes stand for.
pub open spec fn be_u64(bytes: Seq<u8>) -> int {
    bytes[0] * 0x0100_0000_0000_0000 + bytes[1] * 0x0001_0000_0000_0000 + bytes[2]
        * 0x0000_0100_0000_0000 + bytes[3] * 0x0000_0001_0000_0000 + bytes[4] * 0x0100_0000
        + bytes[5] * 0x0001_0000 + bytes[6] * 0x0100 + bytes[7]
}

/// Every byte is zero.
pub open spec fn is_zero(bytes: Seq<u8>) -> bool {
    forall|i: int| 0 <= i < bytes.len() ==> bytes[i] == 0
}

/// A run of `length` zero bytes.
pub open spec fn zeros(length: nat) -> Seq<u8> {
    Seq::new(length, |i: int| 0u8)
}

/// The bytes of a number, most significant first: each stands for its value times as many
/// powers of 256 as there are bytes behind it, and together they add up to the number.
pub proof fn most_significant_byte_comes_first(small: u16, middle: u32, large: u64)
    ensures
        u16_be(small).len() == 2,
        small == u16_be(small)[0] * 256 + u16_be(small)[1],
        u32_be(middle).len() == 4,
        middle == ((u32_be(middle)[0] * 256 + u32_be(middle)[1]) * 256 + u32_be(middle)[2]) * 256
            + u32_be(middle)[3],
        u64_be(large).len() == 8,
        large == ((((((u64_be(large)[0] * 256 + u64_be(large)[1]) * 256 + u64_be(large)[2]) * 256
            + u64_be(large)[3]) * 256 + u64_be(large)[4]) * 256 + u64_be(large)[5]) * 256 + u64_be(
            large,
        )[6]) * 256 + u64_be(large)[7],
{
    lemma_u64_round_trip(large);
}

/// Decoding the big-endian bytes of a 16-bit integer gives it back.
pub proof fn lemma_u16_round_trip(value: u16)
    ensures
        be_u16(u16_be(value)) == value,
        u16_be(value).len() == 2,
{
}

/// Any two bytes are the encoding of the number they stand for.
pub proof fn lemma_u16_canonical(bytes: Seq<u8>)
    requires
        bytes.len() == 2,
    ensures
        0 <= be_u16(bytes) <= u16::MAX,
        u16_be(be_u16(bytes) as u16) == bytes,
{
    assert(u16_be(be_u16(bytes) as u16) =~= bytes);
}

/// Different 32-bit integers have different big-endian bytes.
pub proof fn lemma_u32_injective(left: u32, right: u32)
    requires
        u32_be(left) == u32_be(right),
    ensures
        left == right,
{
    let (a, b) = (u32_be(left), u32_be(right));
    assert(left == a[0] * 0x0100_0000 + a[1] * 0x0001_0000 + a[2] * 0x0100 + a[3]);
    assert(right == b[0] * 0x0100_0000 + b[1] * 0x0001_0000 + b[2] * 0x0100 + b[3]);
}

/// Decoding the big-endian bytes of a 64-bit integer gives it back.
pub proof fn lemma_u64_round_trip(value: u64)
    ensures
        be_u64(u64_be(value)) == value,
        u64_be(value).len() == 8,
{
    assert(value == (value / 0x0100_0000_0000_0000) * 0x0100_0000_0000_0000 + (value
        / 0x0001_0000_0000_0000 % 0x0100) * 0x0001_0000_0000_0000 + (value / 0x0000_0100_0000_0000
        % 0x0100) * 0x0000_0100_0000_0000 + (value / 0x0000_0001_0000_0000 % 0x0100)
        * 0x0000_0001_0000_0000 + (value / 0x0100_0000 % 0x0100) * 0x0100_0000 + (value
        / 0x0001_0000 % 0x0100) * 0x0001_0000 + (value / 0x0100 % 0x0100) * 0x0100 + value
        % 0x0100) by (bit_vector);
}

/// Strings that end in a 64-bit integer each and are equal end in the same one.
pub proof fn lemma_u64_suffix(left: Seq<u8>, left_value: u64, right: Seq<u8>, right_value: u64)
    requires
        left + u64_be(left_value) == right + u64_be(right_value),
    ensures
        left == right,
        left_value == right_value,
{
    let (a, b) = (left + u64_be(left_value), right + u64_be(right_value));
    assert(a.take(a.len() - 8) =~= left);
    assert(b.take(b.len() - 8) =~= right);
    assert(a.skip(a.len() - 8) =~= u64_be(left_value));
    assert(b.skip(b.len() - 8) =~= u64_be(right_value));
    lemma_u64_round_trip(left_value);
    lemma_u64_round_trip(right_value);
}

/// Any eight bytes are the encoding of the number they stand for.
pub proof fn lemma_u64_canonical(bytes: Seq<u8>)
    requires
        bytes.len() == 8,
    ensures
        0 <= be_u64(bytes) <= u64::MAX,
        u64_be(be_u64(bytes) as u64) == bytes,
{
    let value = be_u64(bytes) as u64;
    let (b0, b1, b2, b3) = (bytes[0], bytes[1], bytes[2], bytes[3]);
    let (b4, b5, b6, b7) = (bytes[4], bytes[5], bytes[6], bytes[7]);
    assert(value / 0x0100_0000_0000_0000 == b0 && value / 0x0001_0000_0000_0000 % 0x0100 == b1
        && value / 0x0000_0100_0000_0000 % 0x0100 == b2 && value / 0x0000_0001_0000_0000 % 0x0100
        == b3 && value / 0x0100_0000 % 0x0100 == b4 && value / 0x0001_0000 % 0x0100 == b5 && value
        / 0x0100 % 0x0100 == b6 && value % 0x0100 == b7) by (bit_vector)
        requires
            value == b0 * 0x0100_0000_0000_0000 + b1 * 0x0001_0000_0000_0000 + b2
                * 0x0000_0100_0000_0000 + b3 * 0x0000_0001_0000_0000 + b4 * 0x0100_0000 + b5
                * 0x0001_0000 + b6 * 0x0100 + b7,
    ;
    assert(u64_be(value) =~= bytes);
}

/// Strings that agree up to `middle` and from there to `end` agree up to `end`.
pub proof fn lemma_agreement_extends(left: Seq<u8>, right: Seq<u8>, middle: int, end: int)
    requires
        0 <= middle <= end <= left.len(),
        end <= right.len(),
        left.subrange(0, middle) == right.subrange(0, middle),
        left.subrange(middle, end) == right.subrange(middle, end),
    ensures
        left.subrange(0, end) == right.subrange(0, end),
{
    assert(left.subrange(0, end) =~= left.subrange(0, middle) + left.subrange(middle, end));
    assert(right.subrange(0, end) =~= right.subrange(0, middle) + right.subrange(middle, end));
}

/// Two arrays with the same contents are the same value.
pub proof fn lemma_array_extensional<const N: usize>(left: [u8; N], right: [u8; N])
    requires
        left@ == right@,
    ensures
        left == right,
{
    assert forall|i: int| 0 <= i < N implies left[i] == right[i] by {
        assert(left@[i] == right@[i]);
    }
    assert(left =~= right);
}

/// Whether two byte strings are equal.
pub fn bytes_equal(left: &[u8], right: &[u8]) -> (equal: bool)
    ensures
        equal == (left@ == right@),
{
    if left.len() != right.len() {
        return false;
    }
    let mut index: usize = 0;
    while index < left.len()
        invariant
            index <= left@.len(),
            left@.len() == right@.len(),
            forall|j: int| 0 <= j < index ==> left@[j] == right@[j],
        decreases left@.len() - index,
    {
        if left[index] != right[index] {
            return false;
        }
        index = index + 1;
    }
    assert(left@ =~= right@);
    true
}

/// Whether two fixed-width values are equal.
pub fn arrays_equal<const N: usize>(left: &[u8; N], right: &[u8; N]) -> (equal: bool)
    ensures
        equal == (*left == *right),
{
    let equal = bytes_equal(left.as_slice(), right.as_slice());
    proof {
        if equal {
            lemma_array_extensional(*left, *right);
        }
    }
    equal
}

/// Whether every byte of a fixed-width value is zero.
pub fn all_zero<const N: usize>(bytes: &[u8; N]) -> (zero: bool)
    ensures
        zero == is_zero(bytes@),
{
    slice_is_zero(bytes.as_slice())
}

/// Whether every byte of a byte string is zero.
pub fn slice_is_zero(bytes: &[u8]) -> (zero: bool)
    ensures
        zero == is_zero(bytes@),
{
    let mut index: usize = 0;
    while index < bytes.len()
        invariant
            index <= bytes@.len(),
            forall|j: int| 0 <= j < index ==> bytes@[j] == 0,
        decreases bytes@.len() - index,
    {
        if bytes[index] != 0 {
            return false;
        }
        index = index + 1;
    }
    true
}

/// Appends a byte string.
pub fn append(buffer: &mut Vec<u8>, bytes: &[u8])
    ensures
        final(buffer)@ == old(buffer)@ + bytes@,
{
    let mut index: usize = 0;
    while index < bytes.len()
        invariant
            index <= bytes@.len(),
            buffer@ == old(buffer)@ + bytes@.take(index as int),
        decreases bytes@.len() - index,
    {
        buffer.push(bytes[index]);
        index = index + 1;
        assert(bytes@.take(index as int) =~= bytes@.take(index - 1).push(bytes@[index - 1]));
    }
    assert(bytes@.take(index as int) =~= bytes@);
}

/// Appends the big-endian bytes of a 16-bit integer.
pub fn append_u16(buffer: &mut Vec<u8>, value: u16)
    ensures
        final(buffer)@ == old(buffer)@ + u16_be(value),
{
    buffer.push((value / 0x0100) as u8);
    buffer.push((value % 0x0100) as u8);
}

/// Appends the big-endian bytes of a 32-bit integer.
pub fn append_u32(buffer: &mut Vec<u8>, value: u32)
    ensures
        final(buffer)@ == old(buffer)@ + u32_be(value),
{
    buffer.push((value / 0x0100_0000) as u8);
    buffer.push((value / 0x0001_0000 % 0x0100) as u8);
    buffer.push((value / 0x0100 % 0x0100) as u8);
    buffer.push((value % 0x0100) as u8);
}

/// Appends the big-endian bytes of a 64-bit integer.
pub fn append_u64(buffer: &mut Vec<u8>, value: u64)
    ensures
        final(buffer)@ == old(buffer)@ + u64_be(value),
{
    buffer.push((value / 0x0100_0000_0000_0000) as u8);
    buffer.push((value / 0x0001_0000_0000_0000 % 0x0100) as u8);
    buffer.push((value / 0x0000_0100_0000_0000 % 0x0100) as u8);
    buffer.push((value / 0x0000_0001_0000_0000 % 0x0100) as u8);
    buffer.push((value / 0x0100_0000 % 0x0100) as u8);
    buffer.push((value / 0x0001_0000 % 0x0100) as u8);
    buffer.push((value / 0x0100 % 0x0100) as u8);
    buffer.push((value % 0x0100) as u8);
}

/// Appends `count` zero bytes.
pub fn append_zeros(buffer: &mut Vec<u8>, count: usize)
    ensures
        final(buffer)@ == old(buffer)@ + zeros(count as nat),
{
    let mut index: usize = 0;
    while index < count
        invariant
            index <= count,
            buffer@ == old(buffer)@ + zeros(index as nat),
        decreases count - index,
    {
        buffer.push(0);
        index = index + 1;
        assert(zeros(index as nat) =~= zeros((index - 1) as nat).push(0u8));
    }
}

/// Reads a big-endian 16-bit integer at an offset.
pub fn read_u16(bytes: &[u8], offset: usize) -> (value: u16)
    requires
        offset + 2 <= bytes@.len(),
    ensures
        value == be_u16(bytes@.subrange(offset as int, offset + 2)),
{
    bytes[offset] as u16 * 0x0100 + bytes[offset + 1] as u16
}

/// Reads a big-endian 64-bit integer at an offset.
pub fn read_u64(bytes: &[u8], offset: usize) -> (value: u64)
    requires
        offset + 8 <= bytes@.len(),
    ensures
        value == be_u64(bytes@.subrange(offset as int, offset + 8)),
{
    bytes[offset] as u64 * 0x0100_0000_0000_0000 + bytes[offset + 1] as u64 * 0x0001_0000_0000_0000
        + bytes[offset + 2] as u64 * 0x0000_0100_0000_0000 + bytes[offset + 3] as u64
        * 0x0000_0001_0000_0000 + bytes[offset + 4] as u64 * 0x0100_0000 + bytes[offset + 5] as u64
        * 0x0001_0000 + bytes[offset + 6] as u64 * 0x0100 + bytes[offset + 7] as u64
}

/// Copies `N` bytes at an offset.
pub fn read_array<const N: usize>(bytes: &[u8], offset: usize) -> (array: [u8; N])
    requires
        offset + N <= bytes@.len(),
    ensures
        array@ == bytes@.subrange(offset as int, offset + N),
{
    let length: usize = bytes.len();
    let mut array: [u8; N] = vstd::array::array_fill_for_copy_types(0u8);
    let mut index: usize = 0;
    while index < N
        invariant
            index <= N,
            offset + N <= bytes@.len(),
            bytes@.len() == length,
            forall|j: int| 0 <= j < index ==> array@[j] == bytes@[offset + j],
        decreases N - index,
    {
        array[index] = bytes[offset + index];
        index = index + 1;
    }
    assert(array@ =~= bytes@.subrange(offset as int, offset + N));
    array
}

/// Turns an exactly sized buffer into a fixed-width value.
pub fn into_array<const N: usize>(buffer: &Vec<u8>) -> (array: [u8; N])
    requires
        buffer@.len() == N,
    ensures
        array@ == buffer@,
{
    let array = read_array::<N>(buffer.as_slice(), 0);
    assert(buffer@.subrange(0, N as int) =~= buffer@);
    array
}

/// A part of a string is zero exactly where it holds no nonzero byte.
pub proof fn lemma_zero_range(body: Seq<u8>, from: int, to: int)
    requires
        0 <= from <= to <= body.len(),
    ensures
        is_zero(body.subrange(from, to)) <==> !(exists|i: int|
            from <= i < to && #[trigger] body[i] > 0),
{
    let part = body.subrange(from, to);
    if is_zero(part) {
        assert forall|i: int| from <= i < to implies #[trigger] body[i] == 0 by {
            assert(part[i - from] == 0);
        }
    } else {
        let i = choose|i: int| 0 <= i < part.len() && part[i] != 0;
        assert(body[from + i] > 0);
    }
}

} // verus!
