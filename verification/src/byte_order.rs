//! The bytes of a whole number, least or most significant byte first.
//!
//! A number is taken in two's complement: its lowest byte is `value % 256`, and
//! the bytes above it are those of `value / 256`, with the division that rounds
//! down. For a negative number this gives the bytes that the machine holds.

use vstd::prelude::*;

verus! {

/// The `width` low bytes of `value`, least significant byte first.
pub open spec fn le_bytes(value: int, width: nat) -> Seq<u8>
    decreases width,
{
    if width == 0 {
        Seq::empty()
    } else {
        seq![(value % 256) as u8] + le_bytes(value / 256, (width - 1) as nat)
    }
}

/// The `width` low bytes of `value`, most significant byte first.
pub open spec fn be_bytes(value: int, width: nat) -> Seq<u8>
    decreases width,
{
    if width == 0 {
        Seq::empty()
    } else {
        be_bytes(value / 256, (width - 1) as nat).push((value % 256) as u8)
    }
}

/// The `width` low bytes of `value`, most significant byte first if `big` holds
/// and least significant byte first if not.
pub open spec fn order_bytes(value: int, width: nat, big: bool) -> Seq<u8> {
    if big {
        be_bytes(value, width)
    } else {
        le_bytes(value, width)
    }
}

/// The number of values that `width` bytes can tell apart: 256 to the power `width`.
pub open spec fn span(width: nat) -> int
    decreases width,
{
    if width == 0 {
        1
    } else {
        256 * span((width - 1) as nat)
    }
}

/// Either order gives exactly `width` bytes.
pub proof fn lemma_width(value: int, width: nat)
    ensures
        le_bytes(value, width).len() == width,
        be_bytes(value, width).len() == width,
        forall|big: bool| #[trigger] order_bytes(value, width, big).len() == width,
    decreases width,
{
    if width > 0 {
        lemma_width(value / 256, (width - 1) as nat);
    }
}

/// The two orders are each other's reversal: the bytes of a number with the most
/// significant byte first are its bytes with the least significant byte first,
/// read backwards.
pub proof fn lemma_big_is_little_reversed(value: int, width: nat)
    ensures
        be_bytes(value, width) == le_bytes(value, width).reverse(),
        le_bytes(value, width) == be_bytes(value, width).reverse(),
        order_bytes(value, width, true) == order_bytes(value, width, false).reverse(),
        order_bytes(value, width, false) == order_bytes(value, width, true).reverse(),
    decreases width,
{
    lemma_width(value, width);
    if width > 0 {
        let rest = (width - 1) as nat;
        lemma_big_is_little_reversed(value / 256, rest);
        lemma_width(value / 256, rest);
        assert(be_bytes(value, width) =~= le_bytes(value, width).reverse());
    }
    assert(le_bytes(value, width) =~= le_bytes(value, width).reverse().reverse());
}

/// A single byte is the same in both orders.
pub proof fn lemma_one_byte(value: int, big: bool)
    ensures
        order_bytes(value, 1, big) == seq![(value % 256) as u8],
{
    reveal_with_fuel(le_bytes, 2);
    reveal_with_fuel(be_bytes, 2);
    assert(le_bytes(value, 1) =~= seq![(value % 256) as u8]);
    assert(be_bytes(value, 1) =~= seq![(value % 256) as u8]);
}

/// The `width` low bytes do not change when a multiple of `span(width)` is
/// added to the number.
pub proof fn lemma_low_bytes(value: int, factor: int, width: nat)
    ensures
        le_bytes(value + factor * span(width), width) == le_bytes(value, width),
        be_bytes(value + factor * span(width), width) == be_bytes(value, width),
    decreases width,
{
    if width > 0 {
        let rest = (width - 1) as nat;
        let high = factor * span(rest);
        assert(factor * span(width) == 256 * high) by (nonlinear_arith)
            requires
                span(width) == 256 * span(rest),
                high == factor * span(rest),
        ;
        assert((value + 256 * high) % 256 == value % 256);
        assert((value + 256 * high) / 256 == value / 256 + high);
        lemma_low_bytes(value / 256, factor, rest);
    }
}

/// `span` of a sum of widths is the product of the spans.
pub proof fn lemma_span_sum(low: nat, high: nat)
    ensures
        span(low + high) == span(low) * span(high),
        span(low) > 0,
    decreases low,
{
    if low > 0 {
        let rest = (low - 1) as nat;
        lemma_span_sum(rest, high);
        assert(span(low + high) == 256 * span(rest + high));
        assert(256 * (span(rest) * span(high)) == (256 * span(rest)) * span(high))
            by (nonlinear_arith);
    }
}

/// The bytes of `value`, which is not negative, least significant byte first.
pub fn le_vec(value: u128, width: usize) -> (bytes: Vec<u8>)
    ensures
        bytes@ == le_bytes(value as int, width as nat),
{
    let mut bytes: Vec<u8> = Vec::with_capacity(width);
    let mut rest: u128 = value;
    let mut done: usize = 0;
    while done < width
        invariant
            done <= width,
            bytes@.len() == done,
            le_bytes(value as int, width as nat) == bytes@ + le_bytes(
                rest as int,
                (width - done) as nat,
            ),
        decreases width - done,
    {
        let low: u8 = (rest % 256) as u8;
        proof {
            let left = (width - done) as nat;
            assert(le_bytes(rest as int, left) == seq![low] + le_bytes(
                rest as int / 256,
                (left - 1) as nat,
            ));
            assert(bytes@ + (seq![low] + le_bytes(rest as int / 256, (left - 1) as nat))
                =~= bytes@.push(low) + le_bytes(rest as int / 256, (left - 1) as nat));
        }
        bytes.push(low);
        rest = rest / 256;
        done = done + 1;
    }
    assert(bytes@ + le_bytes(rest as int, 0) =~= bytes@);
    bytes
}

/// The bytes of `value`, which is not negative, most significant byte first.
pub fn be_vec(value: u128, width: usize) -> (bytes: Vec<u8>)
    ensures
        bytes@ == be_bytes(value as int, width as nat),
{
    let mut bytes = le_vec(value, width);
    proof {
        lemma_width(value as int, width as nat);
        lemma_big_is_little_reversed(value as int, width as nat);
    }
    let ghost forward = bytes@;
    let mut low: usize = 0;
    let mut high: usize = width;
    while low + 1 < high
        invariant
            bytes@.len() == width,
            forward.len() == width,
            low + high == width,
            low <= high,
            forall|i: int| 0 <= i < low ==> bytes@[i] == forward[width - 1 - i],
            forall|i: int| high <= i < width ==> bytes@[i] == forward[width - 1 - i],
            forall|i: int| low <= i < high ==> bytes@[i] == forward[i],
        decreases high - low,
    {
        let front: u8 = bytes[low];
        let back: u8 = bytes[high - 1];
        bytes.set(low, back);
        bytes.set(high - 1, front);
        low = low + 1;
        high = high - 1;
    }
    assert(bytes@ =~= forward.reverse());
    bytes
}

/// The `width` low bytes of `value`, in the order that `big` asks for.
pub fn unsigned_bytes(value: u128, width: usize, big: bool) -> (bytes: Vec<u8>)
    ensures
        bytes@ == order_bytes(value as int, width as nat, big),
{
    if big {
        be_vec(value, width)
    } else {
        le_vec(value, width)
    }
}

/// The `width` low bytes of `value` in two's complement, in the order that `big`
/// asks for. Sixteen bytes hold every `i128`, so no greater width is taken.
pub fn signed_bytes(value: i128, width: usize, big: bool) -> (bytes: Vec<u8>)
    requires
        width <= 16,
    ensures
        bytes@ == order_bytes(value as int, width as nat, big),
{
    if value >= 0 {
        unsigned_bytes(value as u128, width, big)
    } else {
        let below: u128 = (-(value + 1)) as u128;
        let lifted: u128 = u128::MAX - below;
        proof {
            let w = width as nat;
            let above = (16 - width) as nat;
            reveal_with_fuel(span, 17);
            assert(span(16) == 0x1_0000_0000_0000_0000_0000_0000_0000_0000int);
            assert(lifted as int == value as int + span(16));
            lemma_span_sum(w, above);
            assert(span(16) == span(above) * span(w)) by (nonlinear_arith)
                requires
                    span(w + above) == span(w) * span(above),
                    w + above == 16,
            ;
            lemma_low_bytes(value as int, span(above), w);
        }
        unsigned_bytes(lifted, width, big)
    }
}

} // verus!
