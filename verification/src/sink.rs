//! The destination of the bytes: anything that takes bytes at its end and says
//! how many it took.

use vstd::prelude::*;

verus! {

/// Why a request on a sink, or on an adapter round one, failed.
#[derive(Clone, Copy, Debug, PartialEq, Eq, Structural)]
pub enum IoError {
    /// The request is one that the receiver does not serve.
    InvalidInput,
    /// The sink took no byte of a request that was not empty.
    WriteZero,
    /// A failure of the sink's own; the code is the sink's and is handed on as it is.
    Sink(i32),
}

/// A destination that bytes are appended to.
///
/// The model of a sink is the sequence of all bytes that it has taken so far.
/// A request appends a prefix of what it offers, and nothing at all when it
/// fails.
pub trait ByteSink: Sized {
    /// The bytes that the sink has taken, oldest first.
    spec fn accepted(&self) -> Seq<u8>;

    /// Whether the sink never fails and takes at least one byte of every request
    /// that is not empty, now and after every further request.
    spec fn dependable(&self) -> bool;

    /// Every request so far that came to nothing, oldest first: a request that
    /// failed, with its failure, and a request of which the sink took nothing
    /// though the data was not empty, with `IoError::WriteZero`.
    spec fn refusals(&self) -> Seq<Refusal>;

    /// What the sink answers in this state when it is offered `data`, where the
    /// state decides that. `None` where something else decides, as it does for
    /// a sink that code outside this library stands behind.
    spec fn write_answer(&self, data: Seq<u8>) -> Option<Result<usize, IoError>>;

    /// What the sink answers in this state when it is asked to pass on what it
    /// holds back, where the state decides that.
    spec fn flush_answer(&self) -> Option<Result<(), IoError>>;

    /// Whether the sink can be in this state after requests on it in the state
    /// `earlier`. Each kind of sink says here what its requests leave as it
    /// is; every request keeps the relation, so it holds across any run of
    /// them.
    spec fn follows(&self, earlier: &Self) -> bool;

    /// Every state follows itself, and what follows a state that follows a
    /// third follows the third.
    proof fn lemma_follows(first: &Self, second: &Self, third: &Self)
        ensures
            first.follows(first),
            second.follows(first) && third.follows(second) ==> third.follows(first),
    ;

    /// Offers `data` to the sink, which takes a prefix of it and returns the
    /// length of that prefix. A sink that fails takes nothing.
    fn write(&mut self, data: &[u8]) -> (taken: Result<usize, IoError>)
        ensures
            match taken {
                Ok(n) => n <= data@.len() && final(self).accepted() == old(self).accepted()
                    + data@.subrange(0, n as int),
                Err(_) => final(self).accepted() == old(self).accepted(),
            },
            old(self).dependable() ==> final(self).dependable() && match taken {
                Ok(n) => data@.len() > 0 ==> n > 0,
                Err(_) => false,
            },
            agrees(old(self).write_answer(data@), taken),
            final(self).refusals() == noted(
                old(self).refusals(),
                final(self).accepted().len(),
                write_failure(data@, taken),
            ),
            final(self).follows(old(self)),
    ;

    /// Asks the sink to pass on what it may have held back. The bytes that it has
    /// taken stay as they are.
    fn flush(&mut self) -> (done: Result<(), IoError>)
        ensures
            final(self).accepted() == old(self).accepted(),
            agrees(old(self).flush_answer(), done),
            final(self).refusals() == noted(
                old(self).refusals(),
                final(self).accepted().len(),
                failure_of(done),
            ),
            old(self).dependable() ==> final(self).dependable() && done is Ok,
            final(self).follows(old(self)),
    ;

    /// Offers `data` again and again until the sink has taken all of it.
    ///
    /// Stops at the first request that comes to nothing and asks nothing after
    /// it: the failure of the sink is returned as it is, and a sink that takes
    /// nothing of what is left gives `IoError::WriteZero`. What the sink took
    /// before stays in it. Nothing is asked of the sink when `data` is empty.
    fn write_all(&mut self, data: &[u8]) -> (done: Result<(), IoError>)
        ensures
            wrote(old(self).accepted(), final(self).accepted(), data@, done),
            final(self).refusals() == noted(
                old(self).refusals(),
                final(self).accepted().len(),
                failure_of(done),
            ),
            old(self).dependable() ==> final(self).dependable() && done is Ok,
            final(self).follows(old(self)),
    {
        let mut sent: usize = 0;
        proof {
            Self::lemma_follows(old(self), old(self), old(self));
        }
        while sent < data.len()
            invariant
                sent <= data@.len(),
                self.accepted() == old(self).accepted() + data@.subrange(0, sent as int),
                self.refusals() == old(self).refusals(),
                old(self).dependable() ==> self.dependable(),
                self.follows(old(self)),
            decreases data@.len() - sent,
        {
            let rest = vstd::slice::slice_subrange(data, sent, data.len());
            let ghost before = self.accepted();
            let ghost earlier = *self;
            let taken = self.write(rest);
            proof {
                Self::lemma_follows(old(self), &earlier, self);
            }
            match progress(taken) {
                Ok(n) => {
                    assert(before + rest@.subrange(0, n as int) =~= old(self).accepted()
                        + data@.subrange(0, sent + n));
                    sent = sent + n;
                },
                Err(e) => {
                    return Err(e);
                },
            }
        }
        assert(data@.subrange(0, sent as int) =~= data@);
        Ok(())
    }
}

/// Whether `given` is the answer `fixed`, where there is one: it is so where
/// nothing fixes the answer.
pub open spec fn agrees<T>(fixed: Option<T>, given: T) -> bool {
    match fixed {
        Some(answer) => given == answer,
        None => true,
    }
}

/// A request that came to nothing.
pub struct Refusal {
    /// The number of bytes that the sink had taken when it refused.
    pub held: nat,
    /// Why the request came to nothing.
    pub failure: IoError,
}

/// The failure that `done` is, if it is one.
pub open spec fn failure_of<T>(done: Result<T, IoError>) -> Option<IoError> {
    match done {
        Ok(_) => None,
        Err(e) => Some(e),
    }
}

/// Why a request that offered `data` and was answered `taken` came to nothing,
/// if it did: the failure, or `IoError::WriteZero` where the sink took nothing
/// of data that was not empty.
pub open spec fn write_failure(data: Seq<u8>, taken: Result<usize, IoError>) -> Option<IoError> {
    match taken {
        Ok(n) => if n == 0 && data.len() > 0 {
            Some(IoError::WriteZero)
        } else {
            None
        },
        Err(e) => Some(e),
    }
}

/// The refusals of a sink after one request, where they were `before`: the
/// same where the request did not fail, and one more where it failed, made
/// while the sink held `held` bytes.
pub open spec fn noted(before: Seq<Refusal>, held: nat, failure: Option<IoError>) -> Seq<Refusal> {
    match failure {
        None => before,
        Some(e) => before.push(Refusal { held, failure: e }),
    }
}

/// What the answer `taken` to a request for data that is not empty means for
/// one who wants all of the data taken: so many bytes further, or the end, with
/// the sink's failure or with `IoError::WriteZero` where the sink took nothing.
pub open spec fn progress_of(taken: Result<usize, IoError>) -> Result<usize, IoError> {
    match taken {
        Ok(n) => if n == 0 {
            Err(IoError::WriteZero)
        } else {
            Ok(n)
        },
        Err(e) => Err(e),
    }
}

/// What the answer `taken` to a request for data that is not empty means for
/// one who wants all of the data taken.
pub fn progress(taken: Result<usize, IoError>) -> (step: Result<usize, IoError>)
    ensures
        step == progress_of(taken),
{
    match taken {
        Ok(n) => if n == 0 {
            Err(IoError::WriteZero)
        } else {
            Ok(n)
        },
        Err(e) => Err(e),
    }
}

/// A request for `data` that failed left `before` as `after`: the sink took a
/// part of `data` from its start, and not all of it.
pub open spec fn cut_short(before: Seq<u8>, after: Seq<u8>, data: Seq<u8>) -> bool {
    &&& before.len() <= after.len() < before.len() + data.len()
    &&& after =~= before + data.subrange(0, after.len() - before.len())
}

/// What a request to append `data` did to a sink that held `before` and now
/// holds `after`: all of `data` was appended where the request succeeded, and a
/// part of `data` from its start, not all of it, where it failed.
pub open spec fn wrote(before: Seq<u8>, after: Seq<u8>, data: Seq<u8>, done: Result<(), IoError>) -> bool {
    match done {
        Ok(_) => after == before + data,
        Err(_) => cut_short(before, after, data),
    }
}

/// Two requests in a row are one request for both pieces of data: where the
/// first appended all of `first` and the second then did `done` with `second`,
/// the two together did `done` with `first + second`.
pub proof fn lemma_wrote_after(
    before: Seq<u8>,
    between: Seq<u8>,
    after: Seq<u8>,
    first: Seq<u8>,
    second: Seq<u8>,
    done: Result<(), IoError>,
)
    requires
        between == before + first,
        wrote(between, after, second, done),
    ensures
        wrote(before, after, first + second, done),
{
    match done {
        Ok(_) => {
            assert(after =~= before + (first + second));
        },
        Err(_) => {
            let kept = after.len() - before.len();
            assert(after =~= before + (first + second).subrange(0, kept));
        },
    }
}

/// A request that failed has failed for any longer data with the same start:
/// the sink holds a part of it from its start, and not all of it.
pub proof fn lemma_wrote_before(
    before: Seq<u8>,
    after: Seq<u8>,
    first: Seq<u8>,
    rest: Seq<u8>,
    done: Result<(), IoError>,
)
    requires
        done is Err,
        wrote(before, after, first, done),
    ensures
        wrote(before, after, first + rest, done),
{
    let kept = after.len() - before.len();
    assert(after =~= before + (first + rest).subrange(0, kept));
}

/// A vector of bytes is a sink that takes everything and never fails. It has
/// nothing beside its bytes that a request could change.
impl ByteSink for Vec<u8> {
    open spec fn accepted(&self) -> Seq<u8> {
        self@
    }

    open spec fn dependable(&self) -> bool {
        true
    }

    open spec fn refusals(&self) -> Seq<Refusal> {
        Seq::empty()
    }

    open spec fn write_answer(&self, data: Seq<u8>) -> Option<Result<usize, IoError>> {
        Some(Ok(data.len() as usize))
    }

    open spec fn flush_answer(&self) -> Option<Result<(), IoError>> {
        Some(Ok(()))
    }

    open spec fn follows(&self, earlier: &Self) -> bool {
        true
    }

    proof fn lemma_follows(first: &Self, second: &Self, third: &Self) {
    }

    fn write(&mut self, data: &[u8]) -> (taken: Result<usize, IoError>)
        ensures
            taken == Ok::<usize, IoError>(data@.len() as usize),
            final(self)@ == old(self)@ + data@,
    {
        assert(self.write_answer(data@) == Some(Ok::<usize, IoError>(data@.len() as usize)));
        self.extend_from_slice(data);
        assert(data@.subrange(0, data@.len() as int) =~= data@);
        Ok(data.len())
    }

    fn flush(&mut self) -> (done: Result<(), IoError>)
        ensures
            done is Ok,
            final(self)@ == old(self)@,
    {
        Ok(())
    }
}

/// A sink of which nothing is known but its two requests: what code outside
/// this library has to offer. Wrapped in a `Recorded`, it is a `ByteSink`.
pub trait RawSink {
    /// Offers `data` to the sink and returns how many bytes it took, from the
    /// start of `data`.
    fn write(&mut self, data: &[u8]) -> Result<usize, IoError>;

    /// Asks the sink to pass on what it may have held back.
    fn flush(&mut self) -> Result<(), IoError>;
}

/// A sink of which nothing is known, with a record of what it said it took.
///
/// The record is what the contracts speak of: the bytes of each request up to
/// the number that the sink returned, nothing for a request that failed, and
/// every failure. It is as true as the sink's answers are.
pub struct Recorded<S: RawSink> {
    raw: S,
    record: Ghost<Seq<u8>>,
    refused: Ghost<Seq<Refusal>>,
}

impl<S: RawSink> Recorded<S> {
    /// The sink inside.
    pub closed spec fn raw(&self) -> S {
        self.raw
    }

    /// Wraps `raw`, with an empty record.
    pub fn new(raw: S) -> (sink: Self)
        ensures
            sink.raw() == raw,
            sink.accepted() == Seq::<u8>::empty(),
            sink.refusals() == Seq::<Refusal>::empty(),
    {
        Recorded { raw, record: Ghost(Seq::empty()), refused: Ghost(Seq::empty()) }
    }

    /// The sink inside, to look at.
    pub fn get_ref(&self) -> (raw: &S)
        ensures
            *raw == self.raw(),
    {
        &self.raw
    }

    /// Gives the sink inside back.
    pub fn into_inner(self) -> (raw: S)
        ensures
            raw == self.raw(),
    {
        self.raw
    }
}

impl<S: RawSink> ByteSink for Recorded<S> {
    closed spec fn accepted(&self) -> Seq<u8> {
        self.record@
    }

    open spec fn dependable(&self) -> bool {
        false
    }

    closed spec fn refusals(&self) -> Seq<Refusal> {
        self.refused@
    }

    open spec fn write_answer(&self, data: Seq<u8>) -> Option<Result<usize, IoError>> {
        None
    }

    open spec fn flush_answer(&self) -> Option<Result<(), IoError>> {
        None
    }

    open spec fn follows(&self, earlier: &Self) -> bool {
        true
    }

    proof fn lemma_follows(first: &Self, second: &Self, third: &Self) {
    }

    /// Offers `data` to the sink inside and records what it took. A sink that
    /// claims more bytes than it was offered is taken to have taken them all.
    fn write(&mut self, data: &[u8]) -> (taken: Result<usize, IoError>) {
        assert(self.write_answer(data@) is None);
        let answer = self.raw.write(data);
        self.took(data, answer)
    }

    /// Hands the request on to the sink inside and records its failure.
    fn flush(&mut self) -> (done: Result<(), IoError>) {
        let answer = self.raw.flush();
        self.flushed(answer)
    }
}

/// What is made of the answer `answer` of a sink to a request for `data`: the
/// answer as it is, but for a sink that claims more bytes than it was offered,
/// which is taken to have taken them all.
pub open spec fn heard(data: Seq<u8>, answer: Result<usize, IoError>) -> Result<usize, IoError> {
    match answer {
        Ok(claimed) => Ok(
            if claimed > data.len() {
                data.len() as usize
            } else {
                claimed
            },
        ),
        Err(e) => Err(e),
    }
}

impl<S: RawSink> Recorded<S> {
    /// Takes note of what the sink inside answered when it was offered `data`,
    /// and hands on what `heard` makes of the answer: the bytes that the sink
    /// took are added to the record, and a request that came to nothing to the
    /// refusals.
    fn took(&mut self, data: &[u8], answer: Result<usize, IoError>) -> (taken: Result<
        usize,
        IoError,
    >)
        ensures
            taken == heard(data@, answer),
            final(self).raw() == old(self).raw(),
            final(self).accepted() == old(self).accepted() + match taken {
                Ok(n) => data@.subrange(0, n as int),
                Err(_) => Seq::<u8>::empty(),
            },
            final(self).refusals() == noted(
                old(self).refusals(),
                final(self).accepted().len(),
                write_failure(data@, taken),
            ),
    {
        let taken = match answer {
            Ok(claimed) => Ok(
                if claimed > data.len() {
                    data.len()
                } else {
                    claimed
                },
            ),
            Err(e) => Err(e),
        };
        proof {
            match taken {
                Ok(n) => {
                    self.record@ = self.record@ + data@.subrange(0, n as int);
                },
                Err(_) => {
                    assert(self.record@ + Seq::<u8>::empty() =~= self.record@);
                },
            }
            self.refused@ = noted(self.refused@, self.record@.len(), write_failure(data@, taken));
        }
        taken
    }

    /// Takes note of what the sink inside answered to a request to pass on what
    /// it held back, and hands the answer on as it is: a failure is added to the
    /// refusals, and nothing else changes.
    fn flushed(&mut self, answer: Result<(), IoError>) -> (done: Result<(), IoError>)
        ensures
            done == answer,
            final(self).raw() == old(self).raw(),
            final(self).accepted() == old(self).accepted(),
            final(self).refusals() == noted(
                old(self).refusals(),
                final(self).accepted().len(),
                failure_of(answer),
            ),
    {
        proof {
            self.refused@ = noted(self.refused@, self.record@.len(), failure_of(answer));
        }
        answer
    }
}

} // verus!
