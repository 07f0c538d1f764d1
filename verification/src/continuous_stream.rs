//! A place for a stream that is given up once the stream has ended.

use vstd::prelude::*;

verus! {

/// A stream, or nothing once the stream has ended or was cleared.
pub struct ContinuousStream<S> {
    stream: Option<S>,
}

impl<S> View for ContinuousStream<S> {
    type V = Option<S>;

    closed spec fn view(&self) -> Option<S> {
        self.stream
    }
}

impl<S> Default for ContinuousStream<S> {
    fn default() -> (empty: Self)
        ensures
            empty@ is None,
    {
        Self { stream: None }
    }
}

impl<S> ContinuousStream<S> {
    /// A holder of `stream`.
    pub fn new(stream: S) -> (holder: Self)
        ensures
            holder@ == Some(stream),
    {
        Self { stream: Some(stream) }
    }

    /// Puts `stream` in the place of what was held.
    pub fn set(&mut self, stream: S)
        ensures
            final(self)@ == Some(stream),
    {
        self.stream = Some(stream);
    }

    /// Gives up the stream.
    pub fn clear(&mut self)
        ensures
            final(self)@ is None,
    {
        self.stream = None;
    }

    /// Whether no stream is held.
    pub fn is_empty(&self) -> (empty: bool)
        ensures
            empty == (self@ is None),
    {
        self.stream.is_none()
    }

    /// The stream, to be polled or changed in place.
    pub fn get_mut(&mut self) -> (stream: Option<&mut S>)
        ensures
            match stream {
                Some(held) => old(self)@ == Some(*held) && final(self)@ == Some(*final(held)),
                None => old(self)@ is None && final(self)@ is None,
            },
    {
        self.stream.as_mut()
    }

    /// Takes note of what the stream gave when it was polled: an ended stream
    /// is given up, so that it is not polled again. The item is handed on.
    pub fn yielded<T>(&mut self, item: Option<T>) -> (handed_on: Option<T>)
        ensures
            handed_on == item,
            final(self)@ == (if item is Some {
                old(self)@
            } else {
                None
            }),
    {
        if item.is_none() {
            self.stream = None;
        }
        item
    }
}

} // verus!
