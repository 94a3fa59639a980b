//! Write typed values as binary data, under an explicit byte order.
//!
//! A value that can be written implements [`BinWrite`]: its `encoding` says which
//! bytes stand for it, and `write_options` appends exactly those bytes to a
//! [`ByteSink`]. Numbers follow the byte order of the [`WriterOption`]; vectors,
//! slices, arrays and tuples are their parts written one after the other.

use vstd::prelude::*;

mod binwrite_impls;
pub mod byte_order;
pub mod sink;
pub mod tuples;
pub mod write_track;
pub mod writers;

pub use binwrite_impls::{
    lemma_native_is_big_or_little, lemma_orders_reverse, lemma_sequence_concat,
    lemma_sequence_empty, lemma_sequence_of_bytes, lemma_sequence_single, same_numbers,
    sequence_encoding, utf8_bytes,
};
pub use sink::{ByteSink, IoError, RawSink, Recorded, Refusal};
pub use tuples::write_pair;

use byte_order::{be_bytes, le_bytes};
use sink::{failure_of, noted, wrote};

verus! {

/// The byte order that multi-byte numbers are written in.
#[derive(Clone, Copy, Debug, PartialEq, Eq, Structural)]
pub enum Endian {
    /// Most significant byte first.
    Big,
    /// Least significant byte first.
    Little,
    /// The order of the machine that runs the program.
    Native,
}

impl Default for Endian {
    fn default() -> (e: Endian)
        ensures
            e == Endian::Native,
    {
        Endian::Native
    }
}

impl Into<String> for &Endian {
    /// The name of the order as text.
    fn into(self) -> (text: String)
        ensures
            String::view(&text) == self.name_spec(),
    {
        self.name()
    }
}

impl vstd::std_specs::convert::IntoSpecImpl<String> for &Endian {
    open spec fn obeys_into_spec() -> bool {
        false
    }

    open spec fn into_spec(self) -> String {
        arbitrary()
    }
}

impl Endian {
    /// The name of the order as text: the name of its variant.
    pub open spec fn name_spec(&self) -> Seq<char> {
        match self {
            Endian::Big => "Big"@,
            Endian::Little => "Little"@,
            Endian::Native => "Native"@,
        }
    }

    /// The name of the order as text.
    pub fn name(&self) -> (text: String)
        ensures
            text@ == self.name_spec(),
    {
        match self {
            Endian::Big => "Big".to_owned(),
            Endian::Little => "Little".to_owned(),
            Endian::Native => "Native".to_owned(),
        }
    }
}

/// `u16::to_ne_bytes`: the two bytes of `x` as the machine holds them. That is
/// one of the two orders; which of them, the contract leaves open, since it
/// differs from machine to machine.
#[verifier::external_body]
fn native_bytes(x: u16) -> (bytes: [u8; 2])
    ensures
        bytes@ == le_bytes(x as int, 2) || bytes@ == be_bytes(x as int, 2),
{
    x.to_ne_bytes()
}

/// The byte order of a machine, as the program found it when it asked.
///
/// A value of this type comes with the options that `WriterOption::default`
/// makes and cannot be made otherwise, so that `Endian::Native` always stands
/// for an order that a machine reported.
#[derive(Clone, Copy, Debug)]
pub struct HostOrder {
    big: bool,
}

impl HostOrder {
    /// Whether the machine holds the most significant byte of a number first.
    pub closed spec fn is_big(&self) -> bool {
        self.big
    }

    /// Whether the machine holds the most significant byte of a number first.
    pub fn big_first(&self) -> (big: bool)
        ensures
            big == self.is_big(),
    {
        self.big
    }

    /// The byte order of the machine that runs the program. Nothing is known of
    /// it beforehand: it is the one or the other.
    fn detect() -> HostOrder {
        let bytes = native_bytes(1);
        HostOrder::holding_one_as(bytes)
    }

    /// The byte order of a machine that holds the number one, in sixteen bits,
    /// as `bytes`: the most significant byte first where these are the bytes
    /// of one in that order, and the least significant byte first otherwise.
    fn holding_one_as(bytes: [u8; 2]) -> (order: HostOrder)
        ensures
            order.is_big() == (bytes@ == be_bytes(1, 2)),
            bytes@ == le_bytes(1, 2) ==> !order.is_big(),
    {
        proof {
            reveal_with_fuel(be_bytes, 3);
            reveal_with_fuel(le_bytes, 3);
            assert(be_bytes(1, 2) =~= seq![0u8, 1u8]);
            assert(le_bytes(1, 2) =~= seq![1u8, 0u8]);
        }
        let big = bytes[0] == 0 && bytes[1] == 1;
        assert(big == (bytes@ =~= seq![0u8, 1u8]));
        HostOrder { big }
    }
}

/// How to write: for now, in which byte order.
///
/// The options are made by `default` and changed from there, so that an option
/// added later breaks no caller.
#[derive(Clone, Copy, Debug)]
#[non_exhaustive]
pub struct WriterOption {
    /// The byte order asked for.
    pub endian: Endian,
    /// The byte order of the machine on which the options were made: what
    /// `Endian::Native` stands for.
    pub host: HostOrder,
}

impl WriterOption {
    /// Whether numbers are written most significant byte first under these
    /// options. `Endian::Native` is the order of the machine.
    pub open spec fn is_big(&self) -> bool {
        match self.endian {
            Endian::Big => true,
            Endian::Little => false,
            Endian::Native => self.host.is_big(),
        }
    }

    /// The same options with the byte order `endian`.
    pub fn with_endian(self, endian: Endian) -> (options: WriterOption)
        ensures
            options.endian == endian,
            options.host == self.host,
    {
        WriterOption { endian, host: self.host }
    }

    /// Whether numbers are written most significant byte first under these
    /// options.
    pub fn big_first(&self) -> (big: bool)
        ensures
            big == self.is_big(),
    {
        match self.endian {
            Endian::Big => true,
            Endian::Little => false,
            Endian::Native => self.host.big_first(),
        }
    }
}

impl Default for WriterOption {
    /// The options that every caller starts from: the order of the machine.
    fn default() -> (options: WriterOption)
        ensures
            options.endian == Endian::Native,
    {
        WriterOption { endian: Endian::Native, host: HostOrder::detect() }
    }
}

/// A value that can be written as bytes.
pub trait BinWrite {
    /// The bytes that stand for the value under `options`.
    spec fn encoding(&self, options: &WriterOption) -> Seq<u8>;

    /// Appends the value's bytes under `options` to `writer`.
    ///
    /// Fails where the sink fails, with the sink's failure as it is; the sink
    /// then holds a part of the bytes, from their start, and not all of them.
    fn write_options<W: ByteSink>(&self, writer: &mut W, options: &WriterOption) -> (done: Result<
        (),
        IoError,
    >)
        ensures
            wrote(old(writer).accepted(), final(writer).accepted(), self.encoding(options), done),
            final(writer).refusals() == noted(
                old(writer).refusals(),
                final(writer).accepted().len(),
                failure_of(done),
            ),
            old(writer).dependable() ==> final(writer).dependable() && done is Ok,
            final(writer).follows(old(writer)),
    ;

    /// Appends the value's bytes to `writer` under the options that `default`
    /// gives: in the order of the machine, which is one of the two orders.
    fn write<W: ByteSink>(&self, writer: &mut W) -> (done: Result<(), IoError>)
        ensures
            exists|options: WriterOption|
                options.endian == Endian::Native && wrote(
                    old(writer).accepted(),
                    final(writer).accepted(),
                    #[trigger] self.encoding(&options),
                    done,
                ),
            final(writer).refusals() == noted(
                old(writer).refusals(),
                final(writer).accepted().len(),
                failure_of(done),
            ),
            old(writer).dependable() ==> final(writer).dependable() && done is Ok,
            final(writer).follows(old(writer)),
    {
        let options = WriterOption::default();
        self.write_options(writer, &options)
    }
}

} // verus!
