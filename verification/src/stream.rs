//! Iteration over a stream from inside a coroutine.

use vstd::prelude::*;

verus! {

/// An iterator over a stream of type `S`.
///
/// Each item is one wait of the coroutine, for the future that resolves to
/// the stream's next item and the rest of the stream. The iterator holds the
/// stream between two items and is without it while the coroutine waits.
pub struct StreamIterator<S> {
    stream: Option<S>,
}

impl<S> View for StreamIterator<S> {
    type V = Option<S>;

    /// The stream, while the iterator holds it.
    closed spec fn view(&self) -> Option<S> {
        self.stream
    }
}

impl<S> StreamIterator<S> {
    /// An iterator that holds `stream`.
    pub fn new(stream: S) -> (iterator: Self)
        ensures
            iterator@ == Some(stream),
    {
        StreamIterator { stream: Some(stream) }
    }

    /// Begins a step: hands out the stream, whose next item is to be waited
    /// for, or nothing if a step is under way.
    pub fn advance(&mut self) -> (stream: Option<S>)
        ensures
            stream == old(self)@,
            final(self)@ is None,
    {
        self.stream.take()
    }

    /// Ends a step: `resolved` is what the wait for the next item yielded.
    ///
    /// The rest of the stream goes back into the iterator, whatever the
    /// outcome. A stream at its end ends the iteration, an item is passed on,
    /// and so is an error, after which the iteration can go on.
    pub fn next<I, E>(&mut self, resolved: Result<(Option<I>, S), (E, S)>) -> (item: Option<
        Result<I, E>,
    >)
        ensures
            match resolved {
                Ok((None, stream)) => item is None && final(self)@ == Some(stream),
                Ok((Some(ok), stream)) => item == Some(Ok::<I, E>(ok)) && final(self)@ == Some(
                    stream,
                ),
                Err((error, stream)) => item == Some(Err::<I, E>(error)) && final(self)@ == Some(
                    stream,
                ),
            },
    {
        let (item, stream) = match resolved {
            Ok((None, stream)) => (None, stream),
            Ok((Some(ok), stream)) => (Some(Ok(ok)), stream),
            Err((error, stream)) => (Some(Err(error)), stream),
        };
        self.stream = Some(stream);
        item
    }
}

} // verus!
