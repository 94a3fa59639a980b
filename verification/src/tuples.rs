//! Tuples are written part by part, in the order of their parts.
//!
//! A tuple of two parts is written by `write_pair`. A longer tuple is its front,
//! which is a tuple one part shorter, followed by its last part: it is written as
//! that pair, with the front taken by reference.

use vstd::prelude::*;

use crate::sink::{
    failure_of, lemma_wrote_after, lemma_wrote_before, noted, wrote, ByteSink, IoError,
};
use crate::{BinWrite, WriterOption};

verus! {

/// Writes `first` and then `second`, both under `options`.
///
/// Stops where `first` fails: nothing of `second` is written then.
pub fn write_pair<A: BinWrite, B: BinWrite, W: ByteSink>(
    first: &A,
    second: &B,
    writer: &mut W,
    options: &WriterOption,
) -> (done: Result<(), IoError>)
    ensures
        wrote(
            old(writer).accepted(),
            final(writer).accepted(),
            first.encoding(options) + second.encoding(options),
            done,
        ),
        final(writer).refusals() == noted(
            old(writer).refusals(),
            final(writer).accepted().len(),
            failure_of(done),
        ),
        old(writer).dependable() ==> final(writer).dependable() && done is Ok,
        final(writer).follows(old(writer)),
{
    let ghost before = writer.accepted();
    match first.write_options(writer, options) {
        Ok(()) => {
            let ghost between = writer.accepted();
            let ghost halfway = *writer;
            let done = second.write_options(writer, options);
            proof {
                W::lemma_follows(old(writer), &halfway, writer);
                lemma_wrote_after(
                    before,
                    between,
                    writer.accepted(),
                    first.encoding(options),
                    second.encoding(options),
                    done,
                );
            }
            done
        },
        Err(e) => {
            proof {
                lemma_wrote_before(
                    before,
                    writer.accepted(),
                    first.encoding(options),
                    second.encoding(options),
                    Err(e),
                );
            }
            Err(e)
        },
    }
}

/// The empty tuple stands for no bytes, and writing it always succeeds.
impl BinWrite for () {
    open spec fn encoding(&self, options: &WriterOption) -> Seq<u8> {
        Seq::empty()
    }

    fn write_options<W: ByteSink>(&self, writer: &mut W, options: &WriterOption) -> (done: Result<
        (),
        IoError,
    >)
        ensures
            done is Ok,
            final(writer).accepted() == old(writer).accepted(),
    {
        proof {
            assert(writer.accepted() + Seq::<u8>::empty() =~= writer.accepted());
            W::lemma_follows(writer, writer, writer);
        }
        Ok(())
    }
}

impl<B1: BinWrite> BinWrite for (B1,) {
    open spec fn encoding(&self, options: &WriterOption) -> Seq<u8> {
        self.0.encoding(options)
    }

    fn write_options<W: ByteSink>(&self, writer: &mut W, options: &WriterOption) -> (done: Result<
        (),
        IoError,
    >) {
        self.0.write_options(writer, options)
    }
}

impl<B1: BinWrite, B2: BinWrite> BinWrite for (B1, B2) {
    open spec fn encoding(&self, options: &WriterOption) -> Seq<u8> {
        self.0.encoding(options) + self.1.encoding(options)
    }

    fn write_options<W: ByteSink>(&self, writer: &mut W, options: &WriterOption) -> (done: Result<
        (),
        IoError,
    >) {
        write_pair(&self.0, &self.1, writer, options)
    }
}

impl<B1: BinWrite, B2: BinWrite, B3: BinWrite> BinWrite for (B1, B2, B3) {
    open spec fn encoding(&self, options: &WriterOption) -> Seq<u8> {
        self.0.encoding(options) + self.1.encoding(options) + self.2.encoding(options)
    }

    fn write_options<W: ByteSink>(&self, writer: &mut W, options: &WriterOption) -> (done: Result<
        (),
        IoError,
    >) {
        let front = (&self.0, &self.1);
        write_pair(&front, &self.2, writer, options)
    }
}

impl<B1: BinWrite, B2: BinWrite, B3: BinWrite, B4: BinWrite> BinWrite for (B1, B2, B3, B4) {
    open spec fn encoding(&self, options: &WriterOption) -> Seq<u8> {
        self.0.encoding(options) + self.1.encoding(options) + self.2.encoding(options)
            + self.3.encoding(options)
    }

    fn write_options<W: ByteSink>(&self, writer: &mut W, options: &WriterOption) -> (done: Result<
        (),
        IoError,
    >) {
        let front = (&self.0, &self.1, &self.2);
        write_pair(&front, &self.3, writer, options)
    }
}

impl<
    B1: BinWrite, B2: BinWrite, B3: BinWrite, B4: BinWrite, B5: BinWrite,
> BinWrite for (
    B1, B2, B3, B4, B5,
) {
    open spec fn encoding(&self, options: &WriterOption) -> Seq<u8> {
        self.0.encoding(options) + self.1.encoding(options) + self.2.encoding(options)
            + self.3.encoding(options) + self.4.encoding(options)
    }

    fn write_options<W: ByteSink>(&self, writer: &mut W, options: &WriterOption) -> (done: Result<
        (),
        IoError,
    >) {
        let front = (&self.0, &self.1, &self.2, &self.3);
        write_pair(&front, &self.4, writer, options)
    }
}

impl<
    B1: BinWrite, B2: BinWrite, B3: BinWrite, B4: BinWrite, B5: BinWrite, B6: BinWrite,
> BinWrite for (
    B1, B2, B3, B4, B5, B6,
) {
    open spec fn encoding(&self, options: &WriterOption) -> Seq<u8> {
        self.0.encoding(options) + self.1.encoding(options) + self.2.encoding(options)
            + self.3.encoding(options) + self.4.encoding(options) + self.5.encoding(options)
    }

    fn write_options<W: ByteSink>(&self, writer: &mut W, options: &WriterOption) -> (done: Result<
        (),
        IoError,
    >) {
        let front = (&self.0, &self.1, &self.2, &self.3, &self.4);
        write_pair(&front, &self.5, writer, options)
    }
}

impl<
    B1: BinWrite, B2: BinWrite, B3: BinWrite, B4: BinWrite, B5: BinWrite, B6: BinWrite,
    B7: BinWrite,
> BinWrite for (
    B1, B2, B3, B4, B5, B6, B7,
) {
    open spec fn encoding(&self, options: &WriterOption) -> Seq<u8> {
        self.0.encoding(options) + self.1.encoding(options) + self.2.encoding(options)
            + self.3.encoding(options) + self.4.encoding(options) + self.5.encoding(options)
            + self.6.encoding(options)
    }

    fn write_options<W: ByteSink>(&self, writer: &mut W, options: &WriterOption) -> (done: Result<
        (),
        IoError,
    >) {
        let front = (&self.0, &self.1, &self.2, &self.3, &self.4, &self.5);
        write_pair(&front, &self.6, writer, options)
    }
}

impl<
    B1: BinWrite, B2: BinWrite, B3: BinWrite, B4: BinWrite, B5: BinWrite, B6: BinWrite,
    B7: BinWrite, B8: BinWrite,
> BinWrite for (
    B1, B2, B3, B4, B5, B6, B7, B8,
) {
    open spec fn encoding(&self, options: &WriterOption) -> Seq<u8> {
        self.0.encoding(options) + self.1.encoding(options) + self.2.encoding(options)
            + self.3.encoding(options) + self.4.encoding(options) + self.5.encoding(options)
            + self.6.encoding(options) + self.7.encoding(options)
    }

    fn write_options<W: ByteSink>(&self, writer: &mut W, options: &WriterOption) -> (done: Result<
        (),
        IoError,
    >) {
        let front = (&self.0, &self.1, &self.2, &self.3, &self.4, &self.5, &self.6);
        write_pair(&front, &self.7, writer, options)
    }
}

impl<
    B1: BinWrite, B2: BinWrite, B3: BinWrite, B4: BinWrite, B5: BinWrite, B6: BinWrite,
    B7: BinWrite, B8: BinWrite, B9: BinWrite,
> BinWrite for (
    B1, B2, B3, B4, B5, B6, B7, B8, B9,
) {
    open spec fn encoding(&self, options: &WriterOption) -> Seq<u8> {
        self.0.encoding(options) + self.1.encoding(options) + self.2.encoding(options)
            + self.3.encoding(options) + self.4.encoding(options) + self.5.encoding(options)
            + self.6.encoding(options) + self.7.encoding(options) + self.8.encoding(options)
    }

    fn write_options<W: ByteSink>(&self, writer: &mut W, options: &WriterOption) -> (done: Result<
        (),
        IoError,
    >) {
        let front = (&self.0, &self.1, &self.2, &self.3, &self.4, &self.5, &self.6, &self.7);
        write_pair(&front, &self.8, writer, options)
    }
}

impl<
    B1: BinWrite, B2: BinWrite, B3: BinWrite, B4: BinWrite, B5: BinWrite, B6: BinWrite,
    B7: BinWrite, B8: BinWrite, B9: BinWrite, B10: BinWrite,
> BinWrite for (
    B1, B2, B3, B4, B5, B6, B7, B8, B9, B10,
) {
    open spec fn encoding(&self, options: &WriterOption) -> Seq<u8> {
        self.0.encoding(options) + self.1.encoding(options) + self.2.encoding(options)
            + self.3.encoding(options) + self.4.encoding(options) + self.5.encoding(options)
            + self.6.encoding(options) + self.7.encoding(options) + self.8.encoding(options)
            + self.9.encoding(options)
    }

    fn write_options<W: ByteSink>(&self, writer: &mut W, options: &WriterOption) -> (done: Result<
        (),
        IoError,
    >) {
        let front = (
            &self.0, &self.1, &self.2, &self.3, &self.4, &self.5, &self.6, &self.7, &self.8,
        );
        write_pair(&front, &self.9, writer, options)
    }
}

impl<
    B1: BinWrite, B2: BinWrite, B3: BinWrite, B4: BinWrite, B5: BinWrite, B6: BinWrite,
    B7: BinWrite, B8: BinWrite, B9: BinWrite, B10: BinWrite, B11: BinWrite,
> BinWrite for (
    B1, B2, B3, B4, B5, B6, B7, B8, B9, B10, B11,
) {
    open spec fn encoding(&self, options: &WriterOption) -> Seq<u8> {
        self.0.encoding(options) + self.1.encoding(options) + self.2.encoding(options)
            + self.3.encoding(options) + self.4.encoding(options) + self.5.encoding(options)
            + self.6.encoding(options) + self.7.encoding(options) + self.8.encoding(options)
            + self.9.encoding(options) + self.10.encoding(options)
    }

    fn write_options<W: ByteSink>(&self, writer: &mut W, options: &WriterOption) -> (done: Result<
        (),
        IoError,
    >) {
        let front = (
            &self.0, &self.1, &self.2, &self.3, &self.4, &self.5, &self.6, &self.7, &self.8,
            &self.9,
        );
        write_pair(&front, &self.10, writer, options)
    }
}

impl<
    B1: BinWrite, B2: BinWrite, B3: BinWrite, B4: BinWrite, B5: BinWrite, B6: BinWrite,
    B7: BinWrite, B8: BinWrite, B9: BinWrite, B10: BinWrite, B11: BinWrite, B12: BinWrite,
> BinWrite for (
    B1, B2, B3, B4, B5, B6, B7, B8, B9, B10, B11, B12,
) {
    open spec fn encoding(&self, options: &WriterOption) -> Seq<u8> {
        self.0.encoding(options) + self.1.encoding(options) + self.2.encoding(options)
            + self.3.encoding(options) + self.4.encoding(options) + self.5.encoding(options)
            + self.6.encoding(options) + self.7.encoding(options) + self.8.encoding(options)
            + self.9.encoding(options) + self.10.encoding(options) + self.11.encoding(options)
    }

    fn write_options<W: ByteSink>(&self, writer: &mut W, options: &WriterOption) -> (done: Result<
        (),
        IoError,
    >) {
        let front = (
            &self.0, &self.1, &self.2, &self.3, &self.4, &self.5, &self.6, &self.7, &self.8,
            &self.9, &self.10,
        );
        write_pair(&front, &self.11, writer, options)
    }
}

impl<
    B1: BinWrite, B2: BinWrite, B3: BinWrite, B4: BinWrite, B5: BinWrite, B6: BinWrite,
    B7: BinWrite, B8: BinWrite, B9: BinWrite, B10: BinWrite, B11: BinWrite, B12: BinWrite,
    B13: BinWrite,
> BinWrite for (
    B1, B2, B3, B4, B5, B6, B7, B8, B9, B10, B11, B12, B13,
) {
    open spec fn encoding(&self, options: &WriterOption) -> Seq<u8> {
        self.0.encoding(options) + self.1.encoding(options) + self.2.encoding(options)
            + self.3.encoding(options) + self.4.encoding(options) + self.5.encoding(options)
            + self.6.encoding(options) + self.7.encoding(options) + self.8.encoding(options)
            + self.9.encoding(options) + self.10.encoding(options) + self.11.encoding(options)
            + self.12.encoding(options)
    }

    fn write_options<W: ByteSink>(&self, writer: &mut W, options: &WriterOption) -> (done: Result<
        (),
        IoError,
    >) {
        let front = (
            &self.0, &self.1, &self.2, &self.3, &self.4, &self.5, &self.6, &self.7, &self.8,
            &self.9, &self.10, &self.11,
        );
        write_pair(&front, &self.12, writer, options)
    }
}

impl<
    B1: BinWrite, B2: BinWrite, B3: BinWrite, B4: BinWrite, B5: BinWrite, B6: BinWrite,
    B7: BinWrite, B8: BinWrite, B9: BinWrite, B10: BinWrite, B11: BinWrite, B12: BinWrite,
    B13: BinWrite, B14: BinWrite,
> BinWrite for (
    B1, B2, B3, B4, B5, B6, B7, B8, B9, B10, B11, B12, B13, B14,
) {
    open spec fn encoding(&self, options: &WriterOption) -> Seq<u8> {
        self.0.encoding(options) + self.1.encoding(options) + self.2.encoding(options)
            + self.3.encoding(options) + self.4.encoding(options) + self.5.encoding(options)
            + self.6.encoding(options) + self.7.encoding(options) + self.8.encoding(options)
            + self.9.encoding(options) + self.10.encoding(options) + self.11.encoding(options)
            + self.12.encoding(options) + self.13.encoding(options)
    }

    fn write_options<W: ByteSink>(&self, writer: &mut W, options: &WriterOption) -> (done: Result<
        (),
        IoError,
    >) {
        let front = (
            &self.0, &self.1, &self.2, &self.3, &self.4, &self.5, &self.6, &self.7, &self.8,
            &self.9, &self.10, &self.11, &self.12,
        );
        write_pair(&front, &self.13, writer, options)
    }
}

impl<
    B1: BinWrite, B2: BinWrite, B3: BinWrite, B4: BinWrite, B5: BinWrite, B6: BinWrite,
    B7: BinWrite, B8: BinWrite, B9: BinWrite, B10: BinWrite, B11: BinWrite, B12: BinWrite,
    B13: BinWrite, B14: BinWrite, B15: BinWrite,
> BinWrite for (
    B1, B2, B3, B4, B5, B6, B7, B8, B9, B10, B11, B12, B13, B14, B15,
) {
    open spec fn encoding(&self, options: &WriterOption) -> Seq<u8> {
        self.0.encoding(options) + self.1.encoding(options) + self.2.encoding(options)
            + self.3.encoding(options) + self.4.encoding(options) + self.5.encoding(options)
            + self.6.encoding(options) + self.7.encoding(options) + self.8.encoding(options)
            + self.9.encoding(options) + self.10.encoding(options) + self.11.encoding(options)
            + self.12.encoding(options) + self.13.encoding(options) + self.14.encoding(options)
    }

    fn write_options<W: ByteSink>(&self, writer: &mut W, options: &WriterOption) -> (done: Result<
        (),
        IoError,
    >) {
        let front = (
            &self.0, &self.1, &self.2, &self.3, &self.4, &self.5, &self.6, &self.7, &self.8,
            &self.9, &self.10, &self.11, &self.12, &self.13,
        );
        write_pair(&front, &self.14, writer, options)
    }
}

impl<
    B1: BinWrite, B2: BinWrite, B3: BinWrite, B4: BinWrite, B5: BinWrite, B6: BinWrite,
    B7: BinWrite, B8: BinWrite, B9: BinWrite, B10: BinWrite, B11: BinWrite, B12: BinWrite,
    B13: BinWrite, B14: BinWrite, B15: BinWrite, B16: BinWrite,
> BinWrite for (
    B1, B2, B3, B4, B5, B6, B7, B8, B9, B10, B11, B12, B13, B14, B15, B16,
) {
    open spec fn encoding(&self, options: &WriterOption) -> Seq<u8> {
        self.0.encoding(options) + self.1.encoding(options) + self.2.encoding(options)
            + self.3.encoding(options) + self.4.encoding(options) + self.5.encoding(options)
            + self.6.encoding(options) + self.7.encoding(options) + self.8.encoding(options)
            + self.9.encoding(options) + self.10.encoding(options) + self.11.encoding(options)
            + self.12.encoding(options) + self.13.encoding(options) + self.14.encoding(options)
            + self.15.encoding(options)
    }

    fn write_options<W: ByteSink>(&self, writer: &mut W, options: &WriterOption) -> (done: Result<
        (),
        IoError,
    >) {
        let front = (
            &self.0, &self.1, &self.2, &self.3, &self.4, &self.5, &self.6, &self.7, &self.8,
            &self.9, &self.10, &self.11, &self.12, &self.13, &self.14,
        );
        write_pair(&front, &self.15, writer, options)
    }
}

impl<
    B1: BinWrite, B2: BinWrite, B3: BinWrite, B4: BinWrite, B5: BinWrite, B6: BinWrite,
    B7: BinWrite, B8: BinWrite, B9: BinWrite, B10: BinWrite, B11: BinWrite, B12: BinWrite,
    B13: BinWrite, B14: BinWrite, B15: BinWrite, B16: BinWrite, B17: BinWrite,
> BinWrite for (
    B1, B2, B3, B4, B5, B6, B7, B8, B9, B10, B11, B12, B13, B14, B15, B16, B17,
) {
    open spec fn encoding(&self, options: &WriterOption) -> Seq<u8> {
        self.0.encoding(options) + self.1.encoding(options) + self.2.encoding(options)
            + self.3.encoding(options) + self.4.encoding(options) + self.5.encoding(options)
            + self.6.encoding(options) + self.7.encoding(options) + self.8.encoding(options)
            + self.9.encoding(options) + self.10.encoding(options) + self.11.encoding(options)
            + self.12.encoding(options) + self.13.encoding(options) + self.14.encoding(options)
            + self.15.encoding(options) + self.16.encoding(options)
    }

    fn write_options<W: ByteSink>(&self, writer: &mut W, options: &WriterOption) -> (done: Result<
        (),
        IoError,
    >) {
        let front = (
            &self.0, &self.1, &self.2, &self.3, &self.4, &self.5, &self.6, &self.7, &self.8,
            &self.9, &self.10, &self.11, &self.12, &self.13, &self.14, &self.15,
        );
        write_pair(&front, &self.16, writer, options)
    }
}

impl<
    B1: BinWrite, B2: BinWrite, B3: BinWrite, B4: BinWrite, B5: BinWrite, B6: BinWrite,
    B7: BinWrite, B8: BinWrite, B9: BinWrite, B10: BinWrite, B11: BinWrite, B12: BinWrite,
    B13: BinWrite, B14: BinWrite, B15: BinWrite, B16: BinWrite, B17: BinWrite, B18: BinWrite,
> BinWrite for (
    B1, B2, B3, B4, B5, B6, B7, B8, B9, B10, B11, B12, B13, B14, B15, B16, B17, B18,
) {
    open spec fn encoding(&self, options: &WriterOption) -> Seq<u8> {
        self.0.encoding(options) + self.1.encoding(options) + self.2.encoding(options)
            + self.3.encoding(options) + self.4.encoding(options) + self.5.encoding(options)
            + self.6.encoding(options) + self.7.encoding(options) + self.8.encoding(options)
            + self.9.encoding(options) + self.10.encoding(options) + self.11.encoding(options)
            + self.12.encoding(options) + self.13.encoding(options) + self.14.encoding(options)
            + self.15.encoding(options) + self.16.encoding(options) + self.17.encoding(options)
    }

    fn write_options<W: ByteSink>(&self, writer: &mut W, options: &WriterOption) -> (done: Result<
        (),
        IoError,
    >) {
        let front = (
            &self.0, &self.1, &self.2, &self.3, &self.4, &self.5, &self.6, &self.7, &self.8,
            &self.9, &self.10, &self.11, &self.12, &self.13, &self.14, &self.15, &self.16,
        );
        write_pair(&front, &self.17, writer, options)
    }
}

impl<
    B1: BinWrite, B2: BinWrite, B3: BinWrite, B4: BinWrite, B5: BinWrite, B6: BinWrite,
    B7: BinWrite, B8: BinWrite, B9: BinWrite, B10: BinWrite, B11: BinWrite, B12: BinWrite,
    B13: BinWrite, B14: BinWrite, B15: BinWrite, B16: BinWrite, B17: BinWrite, B18: BinWrite,
    B19: BinWrite,
> BinWrite for (
    B1, B2, B3, B4, B5, B6, B7, B8, B9, B10, B11, B12, B13, B14, B15, B16, B17, B18, B19,
) {
    open spec fn encoding(&self, options: &WriterOption) -> Seq<u8> {
        self.0.encoding(options) + self.1.encoding(options) + self.2.encoding(options)
            + self.3.encoding(options) + self.4.encoding(options) + self.5.encoding(options)
            + self.6.encoding(options) + self.7.encoding(options) + self.8.encoding(options)
            + self.9.encoding(options) + self.10.encoding(options) + self.11.encoding(options)
            + self.12.encoding(options) + self.13.encoding(options) + self.14.encoding(options)
            + self.15.encoding(options) + self.16.encoding(options) + self.17.encoding(options)
            + self.18.encoding(options)
    }

    fn write_options<W: ByteSink>(&self, writer: &mut W, options: &WriterOption) -> (done: Result<
        (),
        IoError,
    >) {
        let front = (
            &self.0, &self.1, &self.2, &self.3, &self.4, &self.5, &self.6, &self.7, &self.8,
            &self.9, &self.10, &self.11, &self.12, &self.13, &self.14, &self.15, &self.16, &self.17,
        );
        write_pair(&front, &self.18, writer, options)
    }
}

impl<
    B1: BinWrite, B2: BinWrite, B3: BinWrite, B4: BinWrite, B5: BinWrite, B6: BinWrite,
    B7: BinWrite, B8: BinWrite, B9: BinWrite, B10: BinWrite, B11: BinWrite, B12: BinWrite,
    B13: BinWrite, B14: BinWrite, B15: BinWrite, B16: BinWrite, B17: BinWrite, B18: BinWrite,
    B19: BinWrite, B20: BinWrite,
> BinWrite for (
    B1, B2, B3, B4, B5, B6, B7, B8, B9, B10, B11, B12, B13, B14, B15, B16, B17, B18, B19, B20,
) {
    open spec fn encoding(&self, options: &WriterOption) -> Seq<u8> {
        self.0.encoding(options) + self.1.encoding(options) + self.2.encoding(options)
            + self.3.encoding(options) + self.4.encoding(options) + self.5.encoding(options)
            + self.6.encoding(options) + self.7.encoding(options) + self.8.encoding(options)
            + self.9.encoding(options) + self.10.encoding(options) + self.11.encoding(options)
            + self.12.encoding(options) + self.13.encoding(options) + self.14.encoding(options)
            + self.15.encoding(options) + self.16.encoding(options) + self.17.encoding(options)
            + self.18.encoding(options) + self.19.encoding(options)
    }

    fn write_options<W: ByteSink>(&self, writer: &mut W, options: &WriterOption) -> (done: Result<
        (),
        IoError,
    >) {
        let front = (
            &self.0, &self.1, &self.2, &self.3, &self.4, &self.5, &self.6, &self.7, &self.8,
            &self.9, &self.10, &self.11, &self.12, &self.13, &self.14, &self.15, &self.16, &self.17,
            &self.18,
        );
        write_pair(&front, &self.19, writer, options)
    }
}

} // verus!
