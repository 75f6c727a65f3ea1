//! Helpers shared by the parser and the diagnostics: the token stream and
//! the source buffer.
use vstd::prelude::*;

pub mod source;
pub mod token_stream;

pub use self::token_stream::TokenStream;

use crate::lexer::token::{token_views, Token};

verus! {

/// A buffer of items that are consumed from the front, with lookahead that
/// does not consume.
pub trait StreamBuffer {
    type Item;

    /// Consumes one item and returns it; `None` at the end.
    fn peek(&mut self) -> Option<Self::Item>;

    /// Gives a consumed item back, if the buffer can.
    fn unpeek(&mut self) -> Option<Self::Item>;

    /// The item consumed last.
    fn prev(&self) -> Option<Self::Item>;

    /// Whether every item has been consumed.
    fn is_eof(&self) -> bool;

    /// The next item, which stays in the buffer.
    fn first(&self) -> Option<Self::Item>;

    /// The item after the next, which stays in the buffer.
    fn second(&self) -> Option<Self::Item>;

    /// The item `n` places ahead, which stays in the buffer.
    fn nth(&self, n: usize) -> Option<Self::Item>;

    /// A copy of the items not yet consumed.
    fn items(&self) -> Vec<Self::Item>;

    /// The number of items consumed so far.
    fn eaten(&self) -> usize;
}

impl StreamBuffer for TokenStream {
    type Item = Token;

    fn peek(&mut self) -> (r: Option<Token>)
        ensures
            final(self).all() == old(self).all(),
            match r {
                Some(t) => old(self).has(0) && t@ == old(self).ahead(0)@ && final(self).consumed()
                    == old(self).consumed() + 1,
                None => !old(self).has(0) && final(self).consumed() == old(self).consumed(),
            },
    {
        TokenStream::peek(self)
    }

    fn unpeek(&mut self) -> (r: Option<Token>)
        ensures
            r is None,
            *final(self) == *old(self),
    {
        TokenStream::unpeek(self)
    }

    fn prev(&self) -> (r: Option<Token>)
        ensures
            match r {
                Some(t) => self.consumed() > 0 && t@ == self.all()[self.consumed() - 1]@,
                None => self.consumed() == 0,
            },
    {
        TokenStream::prev(self)
    }

    fn is_eof(&self) -> (b: bool)
        ensures
            b == !self.has(0),
    {
        TokenStream::is_eof(self)
    }

    fn first(&self) -> (r: Option<Token>)
        ensures
            match r {
                Some(t) => self.has(0) && t@ == self.ahead(0)@,
                None => !self.has(0),
            },
    {
        TokenStream::first(self)
    }

    fn second(&self) -> (r: Option<Token>)
        ensures
            match r {
                Some(t) => self.has(1) && t@ == self.ahead(1)@,
                None => !self.has(1),
            },
    {
        TokenStream::second(self)
    }

    fn nth(&self, n: usize) -> (r: Option<Token>)
        ensures
            match r {
                Some(t) => self.has(n as int) && t@ == self.ahead(n as int)@,
                None => !self.has(n as int),
            },
    {
        TokenStream::nth(self, n)
    }

    fn items(&self) -> (r: Vec<Token>)
        ensures
            token_views(r@) == self.views().skip(self.consumed() as int),
    {
        TokenStream::items(self)
    }

    fn eaten(&self) -> (n: usize)
        ensures
            n == self.consumed(),
    {
        TokenStream::eaten(self)
    }
}

} // verus!
