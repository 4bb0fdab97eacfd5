//! Reading ahead in a chunk stream by one chunk.

use vstd::prelude::*;

verus! {

/// A buffer of depth one in front of a chunk stream. What is read ahead is
/// held here, can be looked at any number of times, and is the first thing
/// that the consumer of the stream gets.
#[derive(Debug)]
pub struct Lookahead<T> {
    held: Option<T>,
}

impl<T> Lookahead<T> {
    /// What the buffer holds.
    pub closed spec fn held(&self) -> Option<T> {
        self.held
    }

    /// A buffer that holds nothing.
    pub fn new() -> (buffer: Lookahead<T>)
        ensures
            buffer.held() is None,
    {
        Lookahead { held: None }
    }

    /// Puts `item`, read ahead from the stream, into the buffer. A buffer that
    /// holds an item already keeps it and hands `item` back.
    pub fn hold(&mut self, item: T) -> (refused: Option<T>)
        ensures
            match old(self).held() {
                None => final(self).held() == Some(item) && refused is None,
                Some(_) => final(self).held() == old(self).held() && refused == Some(item),
            },
    {
        if self.held.is_some() {
            Some(item)
        } else {
            self.held = Some(item);
            None
        }
    }

    /// Shows what the buffer holds and leaves it there.
    pub fn peek(&self) -> (shown: Option<&T>)
        ensures
            match (shown, self.held()) {
                (Some(item), Some(held)) => *item == held,
                (None, None) => true,
                _ => false,
            },
    {
        self.held.as_ref()
    }

    /// Takes what the buffer holds out of it.
    pub fn take(&mut self) -> (taken: Option<T>)
        ensures
            taken == old(self).held(),
            final(self).held() is None,
    {
        self.held.take()
    }
}

} // verus!
