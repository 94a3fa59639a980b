//! Writers for text in the forms that binary formats ask for: ended by a zero,
//! or in UTF-16.

use vstd::prelude::*;
use vstd::std_specs::iter::IteratorSpec;
use vstd::string::StringSliceAdditionalSpecFns;

use crate::binwrite_impls::sequence_encoding;
use crate::byte_order::order_bytes;
use crate::sink::{failure_of, noted, wrote, ByteSink, IoError};
use crate::tuples::write_pair;
use crate::{BinWrite, WriterOption};

verus! {

/// The UTF-16 units of one character: the character itself where it fits in 16
/// bits, and a pair of surrogates, the high one first, where it does not.
pub open spec fn utf16_units_of(c: char) -> Seq<u16> {
    let scalar = c as u32 as int;
    if scalar < 0x10000 {
        seq![scalar as u16]
    } else {
        seq![
            (0xD800 + (scalar - 0x10000) / 0x400) as u16,
            (0xDC00 + (scalar - 0x10000) % 0x400) as u16,
        ]
    }
}

/// The UTF-16 units of a text: those of its characters, in order.
pub open spec fn utf16_units(text: Seq<char>) -> Seq<u16>
    decreases text.len(),
{
    if text.len() == 0 {
        Seq::empty()
    } else {
        utf16_units(text.drop_last()) + utf16_units_of(text.last())
    }
}

/// The text in UTF-16, as a vector of its units.
pub fn encode_utf16(text: &str) -> (units: Vec<u16>)
    ensures
        units@ == utf16_units(text@),
{
    let mut units: Vec<u16> = Vec::new();
    let mut rest = text.chars();
    let ghost mut seen: Seq<char> = Seq::empty();
    loop
        invariant
            units@ == utf16_units(seen),
            seen + rest.remaining() == text@,
            rest.obeys_prophetic_iter_laws(),
            rest.decrease() is Some,
        decreases rest.decrease()->0,
    {
        let ghost before = rest;
        match rest.next() {
            None => {
                assert(seen =~= text@);
                return units;
            },
            Some(c) => {
                let scalar: u32 = c as u32;
                proof {
                    assert(seen.push(c).drop_last() =~= seen);
                    assert(seen.push(c) + rest.remaining() =~= seen + before.remaining());
                    seen = seen.push(c);
                }
                if scalar < 0x10000 {
                    units.push(scalar as u16);
                } else {
                    let above: u32 = scalar - 0x10000;
                    units.push((0xD800 + above / 0x400) as u16);
                    units.push((0xDC00 + above % 0x400) as u16);
                }
                assert(units@ =~= utf16_units(seen.drop_last()) + utf16_units_of(c));
            },
        }
    }
}

/// Writes `string` in UTF-8 and a zero byte after it.
pub fn null_terminated_string<W: ByteSink>(
    string: &str,
    writer: &mut W,
    options: &WriterOption,
) -> (done: Result<(), IoError>)
    ensures
        wrote(
            old(writer).accepted(),
            final(writer).accepted(),
            string.spec_bytes() + seq![0u8],
            done,
        ),
        final(writer).refusals() == noted(
            old(writer).refusals(),
            final(writer).accepted().len(),
            failure_of(done),
        ),
        old(writer).dependable() ==> final(writer).dependable() && done is Ok,
        final(writer).follows(old(writer)),
{
    write_pair(&string, &0u8, writer, options)
}

/// Writes `string` in UTF-16, each unit as a `u16` in the byte order of
/// `options`, with nothing after the last unit.
pub fn utf16_string<W: ByteSink>(string: &str, writer: &mut W, options: &WriterOption) -> (done:
    Result<(), IoError>)
    ensures
        wrote(
            old(writer).accepted(),
            final(writer).accepted(),
            sequence_encoding(utf16_units(string@), options),
            done,
        ),
        final(writer).refusals() == noted(
            old(writer).refusals(),
            final(writer).accepted().len(),
            failure_of(done),
        ),
        old(writer).dependable() ==> final(writer).dependable() && done is Ok,
        final(writer).follows(old(writer)),
{
    let units = encode_utf16(string);
    units.write_options(writer, options)
}

/// Writes `string` in UTF-16 and a zero unit after it, the zero in the byte
/// order of `options` like every other unit.
pub fn utf16_null_string<W: ByteSink>(
    string: &str,
    writer: &mut W,
    options: &WriterOption,
) -> (done: Result<(), IoError>)
    ensures
        wrote(
            old(writer).accepted(),
            final(writer).accepted(),
            sequence_encoding(utf16_units(string@), options) + order_bytes(
                0,
                2,
                options.is_big(),
            ),
            done,
        ),
        final(writer).refusals() == noted(
            old(writer).refusals(),
            final(writer).accepted().len(),
            failure_of(done),
        ),
        old(writer).dependable() ==> final(writer).dependable() && done is Ok,
        final(writer).follows(old(writer)),
{
    let units = encode_utf16(string);
    write_pair(&units, &0u16, writer, options)
}

} // verus!
