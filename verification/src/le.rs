//! Little-endian words inside byte strings.

use vstd::prelude::*;

verus! {

/// The number of values that `width` bytes can hold.
pub open spec fn radix(width: nat) -> nat
    decreases width,
{
    if width == 0 {
        1
    } else {
        256 * radix((width - 1) as nat)
    }
}

/// The number that `bytes` stand for, least significant byte first.
pub open spec fn le_value(bytes: Seq<u8>) -> nat
    decreases bytes.len(),
{
    if bytes.len() == 0 {
        0
    } else {
        bytes[0] as nat + 256 * le_value(bytes.drop_first())
    }
}

/// The `width` lowest bytes of `value`, least significant byte first.
pub open spec fn le_bytes(value: nat, width: nat) -> Seq<u8>
    decreases width,
{
    if width == 0 {
        Seq::empty()
    } else {
        seq![(value % 256) as u8] + le_bytes(value / 256, (width - 1) as nat)
    }
}

/// The number held by the `width` bytes of `bytes` that start at `at`.
pub open spec fn le_at(bytes: Seq<u8>, at: int, width: int) -> nat {
    le_value(bytes.subrange(at, at + width))
}

/// `le_bytes` yields exactly `width` bytes.
pub proof fn lemma_le_bytes_len(value: nat, width: nat)
    ensures
        le_bytes(value, width).len() == width,
    decreases width,
{
    if width > 0 {
        lemma_le_bytes_len(value / 256, (width - 1) as nat);
    }
}

/// Reading what was written gives the number back.
pub proof fn lemma_value_of_bytes(value: nat, width: nat)
    requires
        value < radix(width),
    ensures
        le_value(le_bytes(value, width)) == value,
    decreases width,
{
    lemma_le_bytes_len(value, width);
    if width > 0 {
        let rest = le_bytes(value / 256, (width - 1) as nat);
        assert(le_bytes(value, width).drop_first() =~= rest);
        lemma_value_of_bytes(value / 256, (width - 1) as nat);
    }
}

/// Writing what was read gives the bytes back, and what was read fits their width.
pub proof fn lemma_bytes_of_value(bytes: Seq<u8>)
    ensures
        le_bytes(le_value(bytes), bytes.len()) == bytes,
        le_value(bytes) < radix(bytes.len()),
    decreases bytes.len(),
{
    if bytes.len() > 0 {
        let rest = bytes.drop_first();
        lemma_bytes_of_value(rest);
        let value = le_value(bytes);
        assert(value % 256 == bytes[0] as nat && value / 256 == le_value(rest));
        assert(le_bytes(value, bytes.len()) =~= bytes);
    } else {
        assert(le_bytes(le_value(bytes), 0) =~= bytes);
    }
}

/// The radix of the widths that the wire format uses.
pub proof fn lemma_radix()
    ensures
        radix(1) == 0x100,
        radix(2) == 0x1_0000,
        radix(4) == 0x1_0000_0000,
        radix(8) == 0x1_0000_0000_0000_0000,
{
    reveal_with_fuel(radix, 9);
}

/// The number held by the `width` bytes of `bytes` that start at `at`.
pub(crate) fn read_le(bytes: &[u8], at: usize, width: usize) -> (value: u64)
    requires
        width <= 8,
        at + width <= bytes@.len(),
    ensures
        value == le_at(bytes@, at as int, width as int),
        value < radix(width as nat),
{
    let ghost word = bytes@.subrange(at as int, at + width);
    let mut value: u64 = 0;
    let mut left: usize = width;
    assert(word.skip(width as int) =~= Seq::<u8>::empty());
    while left > 0
        invariant
            left <= width <= 8,
            at + width <= bytes.len(),
            word == bytes@.subrange(at as int, at + width),
            value == le_value(word.skip(left as int)),
            value < radix((width - left) as nat),
        decreases left,
    {
        proof {
            reveal_with_fuel(radix, 9);
            let tail = word.skip(left - 1);
            assert(tail.drop_first() =~= word.skip(left as int));
            assert(tail[0] == bytes@[at + left - 1]);
            lemma_bytes_of_value(word.skip(left as int));
            lemma_bytes_of_value(tail);
        }
        left = left - 1;
        value = value * 256 + bytes[at + left] as u64;
    }
    assert(word.skip(0) =~= word);
    value
}

/// Writes `value` into the `width` bytes of `out` that start at `at`.
pub(crate) fn put_le<const N: usize>(out: &mut [u8; N], at: usize, value: u64, width: usize)
    requires
        at + width <= N,
    ensures
        final(out)@.take(at + width) == old(out)@.take(at as int) + le_bytes(
            value as nat,
            width as nat,
        ),
        final(out)@.skip(at + width) == old(out)@.skip(at + width),
{
    let mut rest: u64 = value;
    let mut done: usize = 0;
    let ghost before = out@;
    assert(before.take(at as int) + le_bytes(value as nat, width as nat) =~= before.take(
        at as int,
    ) + le_bytes(rest as nat, width as nat));
    while done < width
        invariant
            done <= width,
            at + width <= N,
            out@.len() == N,
            before.len() == N,
            out@.skip(at + width) == before.skip(at + width),
            before.take(at as int) + le_bytes(value as nat, width as nat) == out@.take(at + done)
                + le_bytes(rest as nat, (width - done) as nat),
        decreases width - done,
    {
        let ghost current = out@;
        let byte: u8 = (rest % 256) as u8;
        out[at + done] = byte;
        proof {
            assert(out@.skip(at + width) =~= current.skip(at + width));
            assert(out@.take(at + done + 1) =~= current.take(at + done) + seq![byte]);
            let more = le_bytes(rest as nat / 256, (width - done - 1) as nat);
            assert(le_bytes(rest as nat, (width - done) as nat) =~= seq![byte] + more);
            assert(current.take(at + done) + (seq![byte] + more) =~= out@.take(at + done + 1)
                + more);
        }
        rest = rest / 256;
        done = done + 1;
    }
    assert(out@.take(at + width) + le_bytes(rest as nat, 0) =~= out@.take(at + width));
}

} // verus!
