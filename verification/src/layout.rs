//! The mathematical model of fixed-width byte layouts.
//!
//! A run of bytes stands for a natural number by place value, base 256. In
//! big-endian order the first byte is the most significant one, in
//! little-endian order the least significant one. Signed numbers are read off
//! an unsigned pattern in two's complement.

use crate::endian::Endian;
use vstd::prelude::*;

verus! {

/// The number of distinct patterns that `width` bytes can hold: 256 to the
/// power of `width`.
pub open spec fn limit(width: nat) -> nat
    decreases width,
{
    if width == 0 {
        1
    } else {
        256 * limit((width - 1) as nat)
    }
}

/// The number that `bytes` stand for when the first byte is the most
/// significant one.
pub open spec fn be_value(bytes: Seq<u8>) -> nat
    decreases bytes.len(),
{
    if bytes.len() == 0 {
        0
    } else {
        256 * be_value(bytes.drop_last()) + bytes.last() as nat
    }
}

/// The number that `bytes` stand for when the first byte is the least
/// significant one.
pub open spec fn le_value(bytes: Seq<u8>) -> nat
    decreases bytes.len(),
{
    if bytes.len() == 0 {
        0
    } else {
        bytes.first() as nat + 256 * le_value(bytes.drop_first())
    }
}

/// The number that `bytes` stand for in the given byte order.
pub open spec fn value_of(bytes: Seq<u8>, endian: Endian) -> nat {
    match endian {
        Endian::BigEndian => be_value(bytes),
        Endian::LittleEndian => le_value(bytes),
    }
}

/// The `width` low-order base-256 digits of `value`, most significant first.
pub open spec fn be_bytes(value: nat, width: nat) -> Seq<u8>
    decreases width,
{
    if width == 0 {
        Seq::empty()
    } else {
        be_bytes(value / 256, (width - 1) as nat).push((value % 256) as u8)
    }
}

/// The `width` low-order base-256 digits of `value`, least significant first.
pub open spec fn le_bytes(value: nat, width: nat) -> Seq<u8>
    decreases width,
{
    if width == 0 {
        Seq::empty()
    } else {
        seq![(value % 256) as u8] + le_bytes(value / 256, (width - 1) as nat)
    }
}

/// The `width` bytes that stand for `value` in the given byte order.
pub open spec fn bytes_of(value: nat, width: nat, endian: Endian) -> Seq<u8> {
    match endian {
        Endian::BigEndian => be_bytes(value, width),
        Endian::LittleEndian => le_bytes(value, width),
    }
}

/// The signed number that the unsigned `pattern` of `width` bytes stands for
/// in two's complement.
pub open spec fn signed_of(pattern: nat, width: nat) -> int {
    if 2 * pattern < limit(width) {
        pattern as int
    } else {
        pattern - limit(width)
    }
}

/// The unsigned pattern of `width` bytes that stands for the signed `value`
/// in two's complement.
pub open spec fn pattern_of(value: int, width: nat) -> nat {
    if value >= 0 {
        value as nat
    } else {
        (value + limit(width)) as nat
    }
}

/// Whether the signed `value` fits in `width` bytes.
pub open spec fn fits_signed(value: int, width: nat) -> bool {
    -(limit(width) as int) <= 2 * value < limit(width)
}

/// The limits of the widths that this library reads and writes.
pub proof fn lemma_limits()
    ensures
        limit(0) == 1,
        limit(1) == 0x100,
        limit(2) == 0x1_0000,
        limit(4) == 0x1_0000_0000,
        limit(8) == 0x1_0000_0000_0000_0000,
{
    reveal_with_fuel(limit, 9);
}

/// A number read off bytes is below the limit of their count.
pub proof fn lemma_value_below_limit(bytes: Seq<u8>, endian: Endian)
    ensures
        value_of(bytes, endian) < limit(bytes.len()),
    decreases bytes.len(),
{
    if bytes.len() > 0 {
        match endian {
            Endian::BigEndian => lemma_value_below_limit(bytes.drop_last(), endian),
            Endian::LittleEndian => lemma_value_below_limit(bytes.drop_first(), endian),
        }
    }
}

/// Encoding to `width` bytes gives `width` bytes.
pub proof fn lemma_bytes_of_len(value: nat, width: nat, endian: Endian)
    ensures
        bytes_of(value, width, endian).len() == width,
    decreases width,
{
    if width > 0 {
        lemma_bytes_of_len(value / 256, (width - 1) as nat, endian);
    }
}

/// Decoding the bytes that encode a value gives the value back: for every
/// width, every value that fits the width, and both byte orders.
pub proof fn lemma_value_round_trip(value: nat, width: nat, endian: Endian)
    requires
        value < limit(width),
    ensures
        value_of(bytes_of(value, width, endian), endian) == value,
    decreases width,
{
    if width > 0 {
        let rest = (width - 1) as nat;
        lemma_value_round_trip(value / 256, rest, endian);
        lemma_bytes_of_len(value / 256, rest, endian);
        match endian {
            Endian::BigEndian => {
                let bytes = be_bytes(value, width);
                assert(bytes.drop_last() =~= be_bytes(value / 256, rest));
            },
            Endian::LittleEndian => {
                let bytes = le_bytes(value, width);
                assert(bytes.drop_first() =~= le_bytes(value / 256, rest));
            },
        }
    }
}

/// Encoding the number that bytes stand for gives the bytes back: for every
/// run of bytes and both byte orders.
pub proof fn lemma_bytes_round_trip(bytes: Seq<u8>, endian: Endian)
    ensures
        bytes_of(value_of(bytes, endian), bytes.len(), endian) == bytes,
    decreases bytes.len(),
{
    if bytes.len() > 0 {
        match endian {
            Endian::BigEndian => {
                lemma_bytes_round_trip(bytes.drop_last(), endian);
                assert(bytes.drop_last().push(bytes.last()) =~= bytes);
            },
            Endian::LittleEndian => {
                lemma_bytes_round_trip(bytes.drop_first(), endian);
                assert(seq![bytes.first()] + bytes.drop_first() =~= bytes);
            },
        }
    } else {
        assert(bytes_of(value_of(bytes, endian), bytes.len(), endian) =~= bytes);
    }
}

/// Round trip within a stream: where the bytes that encode a value stand at
/// the head of a run of bytes, the first `width` bytes of the run are those
/// bytes and stand for the value, and what follows them is the rest of the
/// run.
pub proof fn lemma_round_trip_at_head(value: nat, width: nat, endian: Endian, rest: Seq<u8>)
    requires
        value < limit(width),
    ensures
        (bytes_of(value, width, endian) + rest).take(width as int) == bytes_of(
            value,
            width,
            endian,
        ),
        (bytes_of(value, width, endian) + rest).skip(width as int) == rest,
        value_of((bytes_of(value, width, endian) + rest).take(width as int), endian) == value,
{
    let bytes = bytes_of(value, width, endian);
    lemma_bytes_of_len(value, width, endian);
    lemma_value_round_trip(value, width, endian);
    assert((bytes + rest).take(width as int) =~= bytes);
    assert((bytes + rest).skip(width as int) =~= rest);
}

/// Bytes put one run after another stand for the numbers of the two runs,
/// put together by place value.
pub proof fn lemma_value_of_concat(front: Seq<u8>, back: Seq<u8>)
    ensures
        be_value(front + back) == limit(back.len()) * be_value(front) + be_value(back),
        le_value(front + back) == le_value(front) + limit(front.len()) * le_value(back),
{
    lemma_be_value_of_concat(front, back);
    lemma_le_value_of_concat(front, back);
}

proof fn lemma_be_value_of_concat(front: Seq<u8>, back: Seq<u8>)
    ensures
        be_value(front + back) == limit(back.len()) * be_value(front) + be_value(back),
    decreases back.len(),
{
    let all = front + back;
    if back.len() == 0 {
        assert(all =~= front);
        assert(limit(back.len()) * be_value(front) == be_value(front)) by (nonlinear_arith)
            requires
                limit(back.len()) == 1,
        ;
    } else {
        lemma_be_value_of_concat(front, back.drop_last());
        assert(all.drop_last() =~= front + back.drop_last());
        let k = limit(back.drop_last().len());
        let a = be_value(front);
        let b = be_value(back.drop_last());
        assert(256 * (k * a + b) == (256 * k) * a + 256 * b) by (nonlinear_arith);
        assert(be_value(back) == 256 * b + back.last());
    }
}

proof fn lemma_le_value_of_concat(front: Seq<u8>, back: Seq<u8>)
    ensures
        le_value(front + back) == le_value(front) + limit(front.len()) * le_value(back),
    decreases front.len(),
{
    let all = front + back;
    if front.len() == 0 {
        assert(all =~= back);
        assert(limit(front.len()) * le_value(back) == le_value(back)) by (nonlinear_arith)
            requires
                limit(front.len()) == 1,
        ;
    } else {
        lemma_le_value_of_concat(front.drop_first(), back);
        assert(all.drop_first() =~= front.drop_first() + back);
        let k = limit(front.drop_first().len());
        let a = le_value(front.drop_first());
        let b = le_value(back);
        assert(256 * (a + k * b) == 256 * a + (256 * k) * b) by (nonlinear_arith);
        assert(le_value(front) == front.first() + 256 * a);
    }
}

/// Reading a pattern as a signed number and writing that number as a pattern
/// are inverse to each other.
pub proof fn lemma_signed_round_trip(value: int, pattern: nat, width: nat)
    ensures
        fits_signed(value, width) ==> signed_of(pattern_of(value, width), width) == value,
        fits_signed(value, width) ==> pattern_of(value, width) < limit(width),
        pattern < limit(width) ==> pattern_of(signed_of(pattern, width), width) == pattern,
        pattern < limit(width) ==> fits_signed(signed_of(pattern, width), width),
{
}

/// The two byte orders mirror each other: bytes read in one order stand for
/// the number that the reversed bytes stand for in the other order.
pub proof fn lemma_orders_mirror_value(bytes: Seq<u8>, endian: Endian)
    ensures
        value_of(bytes.reverse(), endian.swapped()) == value_of(bytes, endian),
    decreases bytes.len(),
{
    let rev = bytes.reverse();
    if bytes.len() > 0 {
        match endian {
            Endian::BigEndian => {
                lemma_orders_mirror_value(bytes.drop_last(), endian);
                assert(rev.drop_first() =~= bytes.drop_last().reverse());
            },
            Endian::LittleEndian => {
                lemma_orders_mirror_value(bytes.drop_first(), endian);
                assert(rev.drop_last() =~= bytes.drop_first().reverse());
            },
        }
    }
}

/// The two byte orders mirror each other: the bytes of a value in one order
/// are the reversed bytes of that value in the other order.
pub proof fn lemma_orders_mirror_bytes(value: nat, width: nat, endian: Endian)
    ensures
        bytes_of(value, width, endian.swapped()) == bytes_of(value, width, endian).reverse(),
    decreases width,
{
    if width > 0 {
        let rest = (width - 1) as nat;
        lemma_orders_mirror_bytes(value / 256, rest, endian);
        lemma_bytes_of_len(value / 256, rest, endian);
        lemma_bytes_of_len(value / 256, rest, endian.swapped());
        assert(bytes_of(value, width, endian.swapped()) =~= bytes_of(value, width, endian).reverse());
    } else {
        assert(bytes_of(value, width, endian.swapped()) =~= bytes_of(value, width, endian).reverse());
    }
}

} // verus!
