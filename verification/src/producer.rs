//! Sending into a sink from inside a coroutine.

use vstd::prelude::*;

verus! {

/// The sending side of a channel of type `K`, used from inside a coroutine.
///
/// Each item is one wait of the coroutine, for the future that resolves once
/// the sink has accepted the item, which is what holds a fast producer back.
/// The producer holds the sink between two items. Once a send has failed the
/// sink is gone for good, and what is produced from there on is dropped.
pub struct Producer<K> {
    sink: Option<K>,
}

impl<K> View for Producer<K> {
    type V = Option<K>;

    /// The sink, while the producer holds it.
    closed spec fn view(&self) -> Option<K> {
        self.sink
    }
}

impl<K> Producer<K> {
    /// A producer that sends into `sink`.
    pub fn new(sink: K) -> (producer: Self)
        ensures
            producer@ == Some(sink),
    {
        Producer { sink: Some(sink) }
    }

    /// Begins to send an item: hands out the sink, for which the send is to
    /// be waited for, or nothing if the sink is gone, in which case the item
    /// is to be dropped.
    pub fn produce(&mut self) -> (sink: Option<K>)
        ensures
            sink == old(self)@,
            final(self)@ is None,
    {
        self.sink.take()
    }

    /// Ends a send: `sent` is what the wait for the send yielded. A sink that
    /// accepted the item is kept for the next one; after an error the
    /// producer stays without a sink.
    pub fn produced<E>(&mut self, sent: Result<K, E>)
        ensures
            final(self)@ == (match sent {
                Ok(sink) => Some(sink),
                Err(_) => old(self)@,
            }),
    {
        if let Ok(sink) = sent {
            self.sink = Some(sink);
        }
    }
}

} // verus!
