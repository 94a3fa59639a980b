//! A sink that counts what goes through it.

use vstd::prelude::*;

use crate::sink::{ByteSink, IoError, Refusal};

verus! {

/// Where a position query starts from, and how far from there it asks to go.
#[derive(Clone, Copy, Debug, PartialEq, Eq, Structural)]
pub enum SeekFrom {
    /// So many bytes from the start.
    Start(u64),
    /// So many bytes from the end; a negative number is before the end.
    End(i64),
    /// So many bytes from the current position; a negative number is before it.
    Current(i64),
}

impl SeekFrom {
    /// Whether the query asks to go nowhere: no byte from the current position,
    /// or no byte from the end.
    pub open spec fn stays(&self) -> bool {
        *self == SeekFrom::Current(0) || *self == SeekFrom::End(0)
    }
}

/// The counter that stood at `position`, after a request on the sink with the
/// outcome `taken`: further by the bytes that the sink took, and never past the
/// greatest number that the counter can hold.
pub open spec fn advanced(position: nat, taken: Result<usize, IoError>) -> nat {
    match taken {
        Ok(n) => if position + n > usize::MAX {
            usize::MAX as nat
        } else {
            (position + n) as nat
        },
        Err(_) => position,
    }
}

/// The answer to a position query at the counter `position`: the counter where
/// the query asks to go nowhere, and a refusal of any other.
pub open spec fn seek_outcome(position: nat, from: SeekFrom) -> Result<u64, IoError> {
    if from.stays() {
        Ok(position as u64)
    } else {
        Err(IoError::InvalidInput)
    }
}

/// The count that stands for `taken` bytes: that number, and the greatest
/// number that the counter can hold where `taken` is greater.
pub open spec fn count_of(taken: int) -> nat {
    if taken > usize::MAX {
        usize::MAX as nat
    } else if taken < 0 {
        0
    } else {
        taken as nat
    }
}

/// A sink round another sink that counts the bytes the inner sink has taken
/// since the wrapper was made, and answers position queries that go nowhere
/// with that count. It can be thought of as a cursor that only moves forward by
/// writing.
pub struct WriteTrack<W: ByteSink> {
    inner: W,
    pos: usize,
    start: Ghost<nat>,
}

impl<W: ByteSink> WriteTrack<W> {
    /// The sink inside.
    pub closed spec fn sink(&self) -> W {
        self.inner
    }

    /// The count: what a position query that goes nowhere returns.
    pub closed spec fn position(&self) -> nat {
        self.pos as nat
    }

    /// The number of bytes that the sink had taken when it was wrapped.
    pub closed spec fn start(&self) -> nat {
        self.start@
    }

    /// The number of bytes that the sink has taken since it was wrapped.
    pub open spec fn taken(&self) -> int {
        self.sink().accepted().len() - self.start()
    }

    /// Whether the count is the number of bytes that the sink has taken since it
    /// was wrapped. It is so from the start, and every request through the
    /// wrapper keeps it so; bytes that reach the sink past the wrapper, by a
    /// mutable borrow of the sink, are not counted.
    pub open spec fn in_step(&self) -> bool {
        self.taken() >= 0 && self.position() == count_of(self.taken())
    }

    /// Wraps `inner`, with the count at zero.
    pub fn new(inner: W) -> (track: Self)
        ensures
            track.sink() == inner,
            track.position() == 0,
            track.start() == inner.accepted().len(),
            track.in_step(),
    {
        WriteTrack { start: Ghost(inner.accepted().len()), inner, pos: 0 }
    }

    /// Answers a position query: the count, for a query that asks to go nowhere,
    /// and `IoError::InvalidInput` for any other. Nothing moves either way.
    pub fn seek(&mut self, from: SeekFrom) -> (found: Result<u64, IoError>)
        ensures
            found == seek_outcome(old(self).position(), from),
            *final(self) == *old(self),
    {
        match from {
            SeekFrom::Current(0) | SeekFrom::End(0) => Ok(self.pos as u64),
            _ => Err(IoError::InvalidInput),
        }
    }
}

impl<W: ByteSink> core::ops::Deref for WriteTrack<W> {
    type Target = W;

    /// The sink inside, to look at.
    fn deref(&self) -> (inner: &W)
        ensures
            *inner == self.sink(),
    {
        &self.inner
    }
}

impl<W: ByteSink> core::ops::DerefMut for WriteTrack<W> {
    /// The sink inside, to work on it directly. What it takes that way is not
    /// counted.
    fn deref_mut(&mut self) -> (inner: &mut W)
        ensures
            *inner == old(self).sink(),
            final(self).sink() == *final(inner),
            final(self).position() == old(self).position(),
            final(self).start() == old(self).start(),
    {
        &mut self.inner
    }
}

/// The wrapper is a sink itself: it hands every request to the sink inside and
/// returns what that sink returns.
impl<W: ByteSink> ByteSink for WriteTrack<W> {
    open spec fn accepted(&self) -> Seq<u8> {
        self.sink().accepted()
    }

    open spec fn dependable(&self) -> bool {
        self.sink().dependable()
    }

    open spec fn refusals(&self) -> Seq<Refusal> {
        self.sink().refusals()
    }

    open spec fn write_answer(&self, data: Seq<u8>) -> Option<Result<usize, IoError>> {
        self.sink().write_answer(data)
    }

    open spec fn flush_answer(&self) -> Option<Result<(), IoError>> {
        self.sink().flush_answer()
    }

    /// A later state of the wrapper counts from the same byte, holds a later
    /// state of the sink, and is in step if the earlier state was.
    open spec fn follows(&self, earlier: &Self) -> bool {
        &&& self.start() == earlier.start()
        &&& self.sink().follows(&earlier.sink())
        &&& earlier.in_step() ==> self.in_step()
    }

    proof fn lemma_follows(first: &Self, second: &Self, third: &Self) {
        W::lemma_follows(&first.sink(), &second.sink(), &third.sink());
    }

    /// Offers `data` to the sink inside and counts the bytes that it took, which
    /// may be fewer than were offered.
    fn write(&mut self, data: &[u8]) -> (taken: Result<usize, IoError>)
        ensures
            final(self).position() == advanced(old(self).position(), taken),
            old(self).position() <= final(self).position() <= usize::MAX,
    {
        assert(self.write_answer(data@) == self.sink().write_answer(data@));
        let amount = self.inner.write(data)?;
        self.pos = self.pos.saturating_add(amount);
        Ok(amount)
    }

    /// Hands the request on to the sink inside. The count stays.
    fn flush(&mut self) -> (done: Result<(), IoError>)
        ensures
            final(self).position() == old(self).position(),
    {
        self.inner.flush()
    }
}

/// The count is the number of bytes taken. Whatever was written through a
/// wrapper since it was in step, as it is when it is made, a query that asks to
/// go nowhere returns exactly the number of bytes that the sink has taken since
/// it was wrapped, as long as a `usize` holds that number; and every other
/// query is refused.
pub proof fn lemma_position_is_total<W: ByteSink>(
    fresh: &WriteTrack<W>,
    later: &WriteTrack<W>,
    from: SeekFrom,
)
    requires
        fresh.in_step(),
        later.follows(fresh),
    ensures
        later.start() == fresh.start(),
        0 <= later.taken(),
        later.position() == count_of(later.taken()),
        later.taken() <= usize::MAX ==> later.position() == later.taken(),
        from.stays() && later.taken() <= usize::MAX ==> seek_outcome(later.position(), from)
            == Ok::<u64, IoError>(later.taken() as u64),
        !from.stays() ==> seek_outcome(later.position(), from) == Err::<u64, IoError>(
            IoError::InvalidInput,
        ),
{
}

/// The count is never more than the greatest `usize`, whatever has reached the
/// sink and by which way.
pub proof fn lemma_position_fits<W: ByteSink>(track: &WriteTrack<W>)
    ensures
        track.position() <= usize::MAX,
{
}

/// The count never goes down, and never passes the greatest `usize`.
pub proof fn lemma_position_grows(position: nat, taken: Result<usize, IoError>)
    requires
        position <= usize::MAX,
    ensures
        position <= advanced(position, taken) <= usize::MAX,
{
}

} // verus!
