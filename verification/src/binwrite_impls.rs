//! How the built-in types are written: numbers, characters, text, and
//! sequences of values that can be written.

use vstd::prelude::*;
use vstd::string::StringSliceAdditionalSpecFns;
use vstd::utf8::encode_scalar;

use crate::byte_order::{
    lemma_big_is_little_reversed, lemma_one_byte, order_bytes, signed_bytes, unsigned_bytes,
};
use crate::sink::{lemma_wrote_after, lemma_wrote_before, wrote, ByteSink, IoError};
use crate::{BinWrite, Endian, WriterOption};

verus! {

/// A byte stands for itself, whatever the byte order.
impl BinWrite for u8 {
    open spec fn encoding(&self, options: &WriterOption) -> Seq<u8> {
        seq![*self]
    }

    fn write_options<W: ByteSink>(&self, writer: &mut W, options: &WriterOption) -> (done: Result<
        (),
        IoError,
    >) {
        let bytes = [*self];
        assert(bytes@ =~= seq![*self]);
        writer.write_all(bytes.as_slice())
    }
}

impl BinWrite for u16 {
    open spec fn encoding(&self, options: &WriterOption) -> Seq<u8> {
        order_bytes(*self as int, 2, options.is_big())
    }

    fn write_options<W: ByteSink>(&self, writer: &mut W, options: &WriterOption) -> (done: Result<
        (),
        IoError,
    >) {
        let bytes = unsigned_bytes(*self as u128, 2, options.big_first());
        writer.write_all(bytes.as_slice())
    }
}

impl BinWrite for u32 {
    open spec fn encoding(&self, options: &WriterOption) -> Seq<u8> {
        order_bytes(*self as int, 4, options.is_big())
    }

    fn write_options<W: ByteSink>(&self, writer: &mut W, options: &WriterOption) -> (done: Result<
        (),
        IoError,
    >) {
        let bytes = unsigned_bytes(*self as u128, 4, options.big_first());
        writer.write_all(bytes.as_slice())
    }
}

impl BinWrite for u64 {
    open spec fn encoding(&self, options: &WriterOption) -> Seq<u8> {
        order_bytes(*self as int, 8, options.is_big())
    }

    fn write_options<W: ByteSink>(&self, writer: &mut W, options: &WriterOption) -> (done: Result<
        (),
        IoError,
    >) {
        let bytes = unsigned_bytes(*self as u128, 8, options.big_first());
        writer.write_all(bytes.as_slice())
    }
}

impl BinWrite for u128 {
    open spec fn encoding(&self, options: &WriterOption) -> Seq<u8> {
        order_bytes(*self as int, 16, options.is_big())
    }

    fn write_options<W: ByteSink>(&self, writer: &mut W, options: &WriterOption) -> (done: Result<
        (),
        IoError,
    >) {
        let bytes = unsigned_bytes(*self, 16, options.big_first());
        writer.write_all(bytes.as_slice())
    }
}

/// A signed byte is its one byte in two's complement, whatever the byte order.
impl BinWrite for i8 {
    open spec fn encoding(&self, options: &WriterOption) -> Seq<u8> {
        seq![(*self as int % 256) as u8]
    }

    fn write_options<W: ByteSink>(&self, writer: &mut W, options: &WriterOption) -> (done: Result<
        (),
        IoError,
    >) {
        let bytes = signed_bytes(*self as i128, 1, false);
        proof {
            lemma_one_byte(*self as int, false);
        }
        writer.write_all(bytes.as_slice())
    }
}

impl BinWrite for i16 {
    open spec fn encoding(&self, options: &WriterOption) -> Seq<u8> {
        order_bytes(*self as int, 2, options.is_big())
    }

    fn write_options<W: ByteSink>(&self, writer: &mut W, options: &WriterOption) -> (done: Result<
        (),
        IoError,
    >) {
        let bytes = signed_bytes(*self as i128, 2, options.big_first());
        writer.write_all(bytes.as_slice())
    }
}

impl BinWrite for i32 {
    open spec fn encoding(&self, options: &WriterOption) -> Seq<u8> {
        order_bytes(*self as int, 4, options.is_big())
    }

    fn write_options<W: ByteSink>(&self, writer: &mut W, options: &WriterOption) -> (done: Result<
        (),
        IoError,
    >) {
        let bytes = signed_bytes(*self as i128, 4, options.big_first());
        writer.write_all(bytes.as_slice())
    }
}

impl BinWrite for i64 {
    open spec fn encoding(&self, options: &WriterOption) -> Seq<u8> {
        order_bytes(*self as int, 8, options.is_big())
    }

    fn write_options<W: ByteSink>(&self, writer: &mut W, options: &WriterOption) -> (done: Result<
        (),
        IoError,
    >) {
        let bytes = signed_bytes(*self as i128, 8, options.big_first());
        writer.write_all(bytes.as_slice())
    }
}

impl BinWrite for i128 {
    open spec fn encoding(&self, options: &WriterOption) -> Seq<u8> {
        order_bytes(*self as int, 16, options.is_big())
    }

    fn write_options<W: ByteSink>(&self, writer: &mut W, options: &WriterOption) -> (done: Result<
        (),
        IoError,
    >) {
        let bytes = signed_bytes(*self, 16, options.big_first());
        writer.write_all(bytes.as_slice())
    }
}

/// The bytes of one character in UTF-8: one to four of them.
pub fn utf8_bytes(c: char) -> (bytes: Vec<u8>)
    ensures
        bytes@ == encode_scalar(c as u32),
{
    let scalar: u32 = c as u32;
    let last: u8 = 0x80 | (scalar & 0x3F) as u8;
    let second_last: u8 = 0x80 | ((scalar >> 6) & 0x3F) as u8;
    let third_last: u8 = 0x80 | ((scalar >> 12) & 0x3F) as u8;
    let bytes = if scalar <= 0x7F {
        vec![(scalar & 0x7F) as u8]
    } else if scalar <= 0x7FF {
        vec![0xC0 | ((scalar >> 6) & 0x1F) as u8, last]
    } else if scalar <= 0xFFFF {
        vec![0xE0 | ((scalar >> 12) & 0x0F) as u8, second_last, last]
    } else {
        vec![0xF0 | ((scalar >> 18) & 0x7) as u8, third_last, second_last, last]
    };
    assert(bytes@ =~= encode_scalar(scalar));
    bytes
}

/// A character is written as its bytes in UTF-8, one to four of them, whatever
/// the byte order.
impl BinWrite for char {
    open spec fn encoding(&self, options: &WriterOption) -> Seq<u8> {
        encode_scalar(*self as u32)
    }

    fn write_options<W: ByteSink>(&self, writer: &mut W, options: &WriterOption) -> (done: Result<
        (),
        IoError,
    >) {
        let bytes = utf8_bytes(*self);
        writer.write_all(bytes.as_slice())
    }
}

/// The bytes of the values of `items`, one value after the other, each under
/// `options`.
pub open spec fn sequence_encoding<B: BinWrite>(items: Seq<B>, options: &WriterOption) -> Seq<u8>
    decreases items.len(),
{
    if items.len() == 0 {
        Seq::empty()
    } else {
        sequence_encoding(items.drop_last(), options) + items.last().encoding(options)
    }
}

/// A slice is its values written one after the other, each under the same
/// options, with nothing before, between or after them.
impl<B: BinWrite> BinWrite for [B] {
    open spec fn encoding(&self, options: &WriterOption) -> Seq<u8> {
        sequence_encoding(self@, options)
    }

    fn write_options<W: ByteSink>(&self, writer: &mut W, options: &WriterOption) -> (done: Result<
        (),
        IoError,
    >) {
        let ghost before = writer.accepted();
        let mut next: usize = 0;
        proof {
            assert(before + sequence_encoding(self@.take(0), options) =~= before);
            W::lemma_follows(old(writer), old(writer), old(writer));
        }
        while next < self.len()
            invariant
                next <= self@.len(),
                before == old(writer).accepted(),
                writer.accepted() == before + sequence_encoding(self@.take(next as int), options),
                writer.refusals() == old(writer).refusals(),
                old(writer).dependable() ==> writer.dependable(),
                writer.follows(old(writer)),
            decreases self@.len() - next,
        {
            let ghost between = writer.accepted();
            let ghost halfway = *writer;
            let ghost written = sequence_encoding(self@.take(next as int), options);
            let done = self[next].write_options(writer, options);
            proof {
                W::lemma_follows(old(writer), &halfway, writer);
                assert(self@.take(next + 1).drop_last() =~= self@.take(next as int));
                lemma_wrote_after(
                    before,
                    between,
                    writer.accepted(),
                    written,
                    self@[next as int].encoding(options),
                    done,
                );
            }
            if let Err(e) = done {
                proof {
                    assert(self@ =~= self@.take(next + 1) + self@.skip(next + 1));
                    lemma_sequence_concat(self@.take(next + 1), self@.skip(next + 1), options);
                    lemma_wrote_before(
                        before,
                        writer.accepted(),
                        sequence_encoding(self@.take(next + 1), options),
                        sequence_encoding(self@.skip(next + 1), options),
                        done,
                    );
                }
                return Err(e);
            }
            next = next + 1;
        }
        assert(self@.take(next as int) =~= self@);
        Ok(())
    }
}

/// A vector is written as the slice of its values.
impl<B: BinWrite> BinWrite for Vec<B> {
    open spec fn encoding(&self, options: &WriterOption) -> Seq<u8> {
        sequence_encoding(self@, options)
    }

    fn write_options<W: ByteSink>(&self, writer: &mut W, options: &WriterOption) -> (done: Result<
        (),
        IoError,
    >) {
        self.as_slice().write_options(writer, options)
    }
}

/// An array of any length is written as the slice of its values. The empty
/// array stands for no bytes.
impl<B: BinWrite, const N: usize> BinWrite for [B; N] {
    open spec fn encoding(&self, options: &WriterOption) -> Seq<u8> {
        sequence_encoding(self@, options)
    }

    fn write_options<W: ByteSink>(&self, writer: &mut W, options: &WriterOption) -> (done: Result<
        (),
        IoError,
    >) {
        self.as_slice().write_options(writer, options)
    }
}

/// A borrowed slice of bytes is written as it is.
impl BinWrite for &[u8] {
    open spec fn encoding(&self, options: &WriterOption) -> Seq<u8> {
        self@
    }

    fn write_options<W: ByteSink>(&self, writer: &mut W, options: &WriterOption) -> (done: Result<
        (),
        IoError,
    >) {
        writer.write_all(*self)
    }
}

/// Text is written as its bytes in UTF-8, whatever the byte order.
impl BinWrite for str {
    open spec fn encoding(&self, options: &WriterOption) -> Seq<u8> {
        self.spec_bytes()
    }

    fn write_options<W: ByteSink>(&self, writer: &mut W, options: &WriterOption) -> (done: Result<
        (),
        IoError,
    >) {
        writer.write_all(self.as_bytes())
    }
}

impl BinWrite for &str {
    open spec fn encoding(&self, options: &WriterOption) -> Seq<u8> {
        self.spec_bytes()
    }

    fn write_options<W: ByteSink>(&self, writer: &mut W, options: &WriterOption) -> (done: Result<
        (),
        IoError,
    >) {
        writer.write_all(self.as_bytes())
    }
}

impl BinWrite for String {
    open spec fn encoding(&self, options: &WriterOption) -> Seq<u8> {
        vstd::utf8::encode_utf8(self@)
    }

    fn write_options<W: ByteSink>(&self, writer: &mut W, options: &WriterOption) -> (done: Result<
        (),
        IoError,
    >) {
        self.as_str().write_options(writer, options)
    }
}

/// A reference is written as the value that it points to.
impl<B: BinWrite> BinWrite for &B {
    open spec fn encoding(&self, options: &WriterOption) -> Seq<u8> {
        (**self).encoding(options)
    }

    fn write_options<W: ByteSink>(&self, writer: &mut W, options: &WriterOption) -> (done: Result<
        (),
        IoError,
    >) {
        (**self).write_options(writer, options)
    }
}

/// The two byte orders give each other's bytes backwards, for every number of
/// more than one byte: what is written under `Endian::Big` is what is written
/// under `Endian::Little`, read from the end.
pub proof fn lemma_orders_reverse(big: &WriterOption, little: &WriterOption)
    requires
        big.endian == Endian::Big,
        little.endian == Endian::Little,
    ensures
        forall|x: u16| #[trigger] x.encoding(big) == x.encoding(little).reverse(),
        forall|x: u32| #[trigger] x.encoding(big) == x.encoding(little).reverse(),
        forall|x: u64| #[trigger] x.encoding(big) == x.encoding(little).reverse(),
        forall|x: u128| #[trigger] x.encoding(big) == x.encoding(little).reverse(),
        forall|x: i16| #[trigger] x.encoding(big) == x.encoding(little).reverse(),
        forall|x: i32| #[trigger] x.encoding(big) == x.encoding(little).reverse(),
        forall|x: i64| #[trigger] x.encoding(big) == x.encoding(little).reverse(),
        forall|x: i128| #[trigger] x.encoding(big) == x.encoding(little).reverse(),
{
    assert forall|value: int, width: nat| #[trigger]
        order_bytes(value, width, true) == order_bytes(value, width, false).reverse() by {
        lemma_big_is_little_reversed(value, width);
    }
}

/// The order of the machine is one of the two orders: under `Endian::Native`
/// every value is written as it is under `Endian::Big`, or every value as it is
/// under `Endian::Little`, and which of the two depends on the options alone.
pub proof fn lemma_native_is_big_or_little(
    native: &WriterOption,
    big: &WriterOption,
    little: &WriterOption,
)
    requires
        native.endian == Endian::Native,
        big.endian == Endian::Big,
        little.endian == Endian::Little,
    ensures
        native.is_big() == big.is_big() || native.is_big() == little.is_big(),
        native.is_big() ==> same_numbers(native, big),
        !native.is_big() ==> same_numbers(native, little),
{
}

/// Whether every number is written under `one` as it is under `other`.
pub open spec fn same_numbers(one: &WriterOption, other: &WriterOption) -> bool {
    &&& forall|x: u8| #[trigger] x.encoding(one) == x.encoding(other)
    &&& forall|x: u16| #[trigger] x.encoding(one) == x.encoding(other)
    &&& forall|x: u32| #[trigger] x.encoding(one) == x.encoding(other)
    &&& forall|x: u64| #[trigger] x.encoding(one) == x.encoding(other)
    &&& forall|x: u128| #[trigger] x.encoding(one) == x.encoding(other)
    &&& forall|x: i8| #[trigger] x.encoding(one) == x.encoding(other)
    &&& forall|x: i16| #[trigger] x.encoding(one) == x.encoding(other)
    &&& forall|x: i32| #[trigger] x.encoding(one) == x.encoding(other)
    &&& forall|x: i64| #[trigger] x.encoding(one) == x.encoding(other)
    &&& forall|x: i128| #[trigger] x.encoding(one) == x.encoding(other)
}

/// No values stand for no bytes.
pub proof fn lemma_sequence_empty<B: BinWrite>(options: &WriterOption)
    ensures
        sequence_encoding(Seq::<B>::empty(), options) == Seq::<u8>::empty(),
{
}

/// One value alone is written as that value.
pub proof fn lemma_sequence_single<B: BinWrite>(item: B, options: &WriterOption)
    ensures
        sequence_encoding(seq![item], options) == item.encoding(options),
{
    let one = seq![item];
    assert(one.drop_last() =~= Seq::<B>::empty());
    assert(one.last() == item);
    assert(sequence_encoding(one.drop_last(), options) == Seq::<u8>::empty());
    assert(Seq::<u8>::empty() + item.encoding(options) =~= item.encoding(options));
}

/// Bytes one after the other are written as they are: a sequence of bytes,
/// written value by value, is the same bytes.
pub proof fn lemma_sequence_of_bytes(bytes: Seq<u8>, options: &WriterOption)
    ensures
        sequence_encoding(bytes, options) == bytes,
    decreases bytes.len(),
{
    if bytes.len() == 0 {
        assert(bytes =~= Seq::<u8>::empty());
    } else {
        lemma_sequence_of_bytes(bytes.drop_last(), options);
        assert(bytes.drop_last() + seq![bytes.last()] =~= bytes);
    }
}

/// A sequence of values is written as the bytes of each value by itself, put
/// together in the order of the values: the bytes of two sequences joined are
/// the bytes of the first followed by the bytes of the second.
pub proof fn lemma_sequence_concat<B: BinWrite>(front: Seq<B>, back: Seq<B>, options: &WriterOption)
    ensures
        sequence_encoding(front + back, options) == sequence_encoding(front, options)
            + sequence_encoding(back, options),
    decreases back.len(),
{
    if back.len() == 0 {
        assert(front + back =~= front);
        assert(sequence_encoding(front, options) + Seq::<u8>::empty() =~= sequence_encoding(
            front,
            options,
        ));
    } else {
        lemma_sequence_concat(front, back.drop_last(), options);
        assert((front + back).drop_last() =~= front + back.drop_last());
        assert((front + back).last() == back.last());
        assert(sequence_encoding(front, options) + (sequence_encoding(back.drop_last(), options)
            + back.last().encoding(options)) =~= (sequence_encoding(front, options)
            + sequence_encoding(back.drop_last(), options)) + back.last().encoding(options));
    }
}

} // verus!
