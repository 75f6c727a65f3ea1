//! A stream of tokens with lookahead that does not consume.
use vstd::prelude::*;

use crate::lexer::token::{token_views, Token, TokenView};

verus! {

/// The tokens of a source with a mark that separates the tokens already
/// consumed from those still ahead. Looking ahead never moves the mark.
pub struct TokenStream {
    buffer: Vec<Token>,
    position: usize,
}

impl TokenStream {
    #[verifier::type_invariant]
    spec fn inv(&self) -> bool {
        self.position <= self.buffer@.len()
    }

    /// Every token of the stream, consumed or not, in order.
    pub closed spec fn all(&self) -> Seq<Token> {
        self.buffer@
    }

    /// The number of tokens consumed so far.
    pub closed spec fn consumed(&self) -> int {
        self.position as int
    }

    /// The values of all tokens of the stream.
    pub open spec fn views(&self) -> Seq<TokenView> {
        token_views(self.all())
    }

    /// Whether a token lies `n` places ahead of the mark.
    pub open spec fn has(&self, n: int) -> bool {
        0 <= n && self.consumed() + n < self.all().len()
    }

    /// The token `n` places ahead of the mark.
    pub open spec fn ahead(&self, n: int) -> Token
        recommends
            self.has(n),
    {
        self.all()[self.consumed() + n]
    }

    /// A stream over `tokens` with nothing consumed.
    pub fn new(tokens: Vec<Token>) -> (s: TokenStream)
        ensures
            s.all() == tokens@,
            s.consumed() == 0,
    {
        TokenStream { buffer: tokens, position: 0 }
    }

    /// Consumes one token and returns it; `None` at the end of the stream,
    /// where nothing changes.
    pub fn peek(&mut self) -> (r: Option<Token>)
        ensures
            final(self).all() == old(self).all(),
            match r {
                Some(t) => old(self).has(0) && t@ == old(self).ahead(0)@ && final(self).consumed()
                    == old(self).consumed() + 1,
                None => !old(self).has(0) && final(self).consumed() == old(self).consumed(),
            },
    {
        proof {
            use_type_invariant(&*self);
        }
        if self.position < self.buffer.len() {
            let t = self.buffer[self.position].clone();
            self.position += 1;
            Some(t)
        } else {
            None
        }
    }

    /// Consumes one token, or returns `v` at the end of the stream.
    pub fn peek_or(&mut self, v: Token) -> (r: Token)
        ensures
            final(self).all() == old(self).all(),
            old(self).has(0) ==> r@ == old(self).ahead(0)@ && final(self).consumed() == old(
                self,
            ).consumed() + 1,
            !old(self).has(0) ==> r == v && final(self).consumed() == old(self).consumed(),
    {
        match self.peek() {
            Some(t) => t,
            None => v,
        }
    }

    /// Consumes `n` tokens, or all those left if they are fewer.
    pub fn peek_inc(&mut self, n: usize)
        ensures
            final(self).all() == old(self).all(),
            final(self).consumed() == if old(self).consumed() + n <= old(self).all().len() {
                old(self).consumed() + n
            } else {
                old(self).all().len() as int
            },
    {
        proof {
            use_type_invariant(&*self);
        }
        let left = self.buffer.len() - self.position;
        if n <= left {
            self.position += n;
        } else {
            self.position = self.buffer.len();
        }
    }

    /// Gives a consumed token back. This stream cannot, and returns `None`.
    pub fn unpeek(&mut self) -> (r: Option<Token>)
        ensures
            r is None,
            *final(self) == *old(self),
    {
        None
    }

    /// The token consumed last.
    pub fn prev(&self) -> (r: Option<Token>)
        ensures
            match r {
                Some(t) => self.consumed() > 0 && t@ == self.all()[self.consumed() - 1]@,
                None => self.consumed() == 0,
            },
    {
        proof {
            use_type_invariant(self);
        }
        if self.position > 0 {
            Some(self.buffer[self.position - 1].clone())
        } else {
            None
        }
    }

    /// Whether every token has been consumed.
    pub fn is_eof(&self) -> (b: bool)
        ensures
            b == !self.has(0),
            0 <= self.consumed() <= self.all().len(),
    {
        proof {
            use_type_invariant(self);
        }
        self.position >= self.buffer.len()
    }

    /// The next token, which stays in the stream.
    pub fn first(&self) -> (r: Option<Token>)
        ensures
            match r {
                Some(t) => self.has(0) && t@ == self.ahead(0)@,
                None => !self.has(0),
            },
    {
        self.nth(0)
    }

    /// The next token, or `v` at the end of the stream.
    pub fn first_or(&self, v: Token) -> (r: Token)
        ensures
            self.has(0) ==> r@ == self.ahead(0)@,
            !self.has(0) ==> r == v,
    {
        match self.first() {
            Some(t) => t,
            None => v,
        }
    }

    /// The token after the next, which stays in the stream.
    pub fn second(&self) -> (r: Option<Token>)
        ensures
            match r {
                Some(t) => self.has(1) && t@ == self.ahead(1)@,
                None => !self.has(1),
            },
    {
        self.nth(1)
    }

    /// The token after the next, or `v` if there is none.
    pub fn second_or(&self, v: Token) -> (r: Token)
        ensures
            self.has(1) ==> r@ == self.ahead(1)@,
            !self.has(1) ==> r == v,
    {
        match self.second() {
            Some(t) => t,
            None => v,
        }
    }

    /// The token `n` places ahead, which stays in the stream.
    pub fn nth(&self, n: usize) -> (r: Option<Token>)
        ensures
            match r {
                Some(t) => self.has(n as int) && t@ == self.ahead(n as int)@,
                None => !self.has(n as int),
            },
    {
        match self.nth_ref(n) {
            Some(t) => Some(t.clone()),
            None => None,
        }
    }

    /// The token `n` places ahead, or `v` if there is none.
    pub fn nth_or(&self, n: usize, v: Token) -> (r: Token)
        ensures
            self.has(n as int) ==> r@ == self.ahead(n as int)@,
            !self.has(n as int) ==> r == v,
    {
        match self.nth(n) {
            Some(t) => t,
            None => v,
        }
    }

    /// A reference to the token `n` places ahead.
    pub fn nth_ref(&self, n: usize) -> (r: Option<&Token>)
        ensures
            match r {
                Some(t) => self.has(n as int) && *t == self.ahead(n as int),
                None => !self.has(n as int),
            },
            0 <= self.consumed() <= self.all().len() <= usize::MAX,
    {
        proof {
            use_type_invariant(self);
        }
        if n < self.buffer.len() - self.position {
            Some(&self.buffer[self.position + n])
        } else {
            None
        }
    }

    /// The token `n` places ahead if `f` accepts it.
    pub fn nth_if<F: FnOnce(&Token) -> bool>(&self, n: usize, f: F) -> (r: Option<Token>)
        requires
            self.has(n as int) ==> f.requires((&self.ahead(n as int),)),
        ensures
            match r {
                Some(t) => self.has(n as int) && t@ == self.ahead(n as int)@ && f.ensures(
                    (&self.ahead(n as int),),
                    true,
                ),
                None => !self.has(n as int) || f.ensures((&self.ahead(n as int),), false),
            },
    {
        match self.nth_ref(n) {
            Some(t) => {
                if f(t) {
                    Some(t.clone())
                } else {
                    None
                }
            },
            None => None,
        }
    }

    /// The next token if `f` accepts it.
    pub fn first_if<F: FnOnce(&Token) -> bool>(&self, f: F) -> (r: Option<Token>)
        requires
            self.has(0) ==> f.requires((&self.ahead(0),)),
        ensures
            match r {
                Some(t) => self.has(0) && t@ == self.ahead(0)@ && f.ensures(
                    (&self.ahead(0),),
                    true,
                ),
                None => !self.has(0) || f.ensures((&self.ahead(0),), false),
            },
    {
        self.nth_if(0, f)
    }

    /// The token after the next if `f` accepts it.
    pub fn second_if<F: FnOnce(&Token) -> bool>(&self, f: F) -> (r: Option<Token>)
        requires
            self.has(1) ==> f.requires((&self.ahead(1),)),
        ensures
            match r {
                Some(t) => self.has(1) && t@ == self.ahead(1)@ && f.ensures(
                    (&self.ahead(1),),
                    true,
                ),
                None => !self.has(1) || f.ensures((&self.ahead(1),), false),
            },
    {
        self.nth_if(1, f)
    }

    /// Consumes the next token and returns it if `f` accepts it; otherwise
    /// the stream is left as it was.
    pub fn peek_if<F: FnOnce(&Token) -> bool>(&mut self, f: F) -> (r: Option<Token>)
        requires
            old(self).has(0) ==> f.requires((&old(self).ahead(0),)),
        ensures
            final(self).all() == old(self).all(),
            match r {
                Some(t) => old(self).has(0) && t@ == old(self).ahead(0)@ && f.ensures(
                    (&old(self).ahead(0),),
                    true,
                ) && final(self).consumed() == old(self).consumed() + 1,
                None => (!old(self).has(0) || f.ensures((&old(self).ahead(0),), false))
                    && final(self).consumed() == old(self).consumed(),
            },
    {
        match self.first_if(f) {
            Some(t) => {
                self.peek();
                Some(t)
            },
            None => None,
        }
    }

    /// Consumes tokens until `f` accepts the next one, which is returned and
    /// stays in the stream; `None` if the stream ends first.
    pub fn peek_until<F: Fn(&Token) -> bool>(&mut self, f: F) -> (r: Option<Token>)
        requires
            forall|i: int|
                old(self).consumed() <= i < old(self).all().len() ==> f.requires(
                    (&#[trigger] old(self).all()[i],),
                ),
        ensures
            final(self).all() == old(self).all(),
            old(self).consumed() <= final(self).consumed() <= old(self).all().len(),
            forall|i: int|
                old(self).consumed() <= i < final(self).consumed() ==> f.ensures(
                    (&#[trigger] old(self).all()[i],),
                    false,
                ),
            match r {
                Some(t) => final(self).has(0) && t@ == final(self).ahead(0)@ && f.ensures(
                    (&final(self).ahead(0),),
                    true,
                ),
                None => !final(self).has(0),
            },
    {
        proof {
            use_type_invariant(&*self);
        }
        loop
            invariant
                self.all() == old(self).all(),
                old(self).consumed() <= self.consumed() <= old(self).all().len(),
                forall|i: int|
                    old(self).consumed() <= i < old(self).all().len() ==> f.requires(
                        (&#[trigger] old(self).all()[i],),
                    ),
                forall|i: int|
                    old(self).consumed() <= i < self.consumed() ==> f.ensures(
                        (&#[trigger] old(self).all()[i],),
                        false,
                    ),
            decreases self.all().len() - self.consumed(),
        {
            match self.nth_ref(0) {
                None => {
                    return None;
                },
                Some(t) => {
                    if f(t) {
                        return Some(t.clone());
                    }
                },
            }
            self.peek();
        }
    }

    /// Whether `n` is where a scan from the mark stops that passes every
    /// token that `after` accepts: `after` accepted the `n` tokens before it
    /// and refuses the token there, or the stream ends there.
    pub open spec fn scan_stops<A: Fn(&Token) -> bool>(&self, from: int, n: int, after: A) -> bool {
        &&& from <= n
        &&& self.consumed() + n <= self.all().len()
        &&& forall|j: int| from <= j < n ==> after.ensures((&#[trigger] self.ahead(j),), true)
        &&& self.has(n) ==> after.ensures((&self.ahead(n),), false)
    }

    /// Looks past the tokens that `after` accepts for a token that `find`
    /// accepts, and returns it with its distance from the mark. Nothing is
    /// consumed.
    pub fn find_after<F: Fn(&Token) -> bool, A: Fn(&Token) -> bool>(&self, find: F, after: A) -> (r:
        Option<(usize, Token)>)
        requires
            forall|j: int| self.has(j) ==> after.requires((&#[trigger] self.ahead(j),)),
            forall|j: int| self.has(j) ==> find.requires((&#[trigger] self.ahead(j),)),
        ensures
            match r {
                Some((n, t)) => self.scan_stops(0, n as int, after) && self.has(n as int) && t@
                    == self.ahead(n as int)@ && find.ensures((&self.ahead(n as int),), true),
                None => exists|n: int|
                    #![trigger self.has(n)]
                    self.scan_stops(0, n, after) && (self.has(n) ==> find.ensures(
                        (&self.ahead(n),),
                        false,
                    )),
            },
    {
        let r = self.find_after_nth(0, find, after);
        proof {
            use_type_invariant(self);
            if r is None && !self.has(0) {
                assert(self.scan_stops(0, 0, after));
            }
        }
        r
    }

    /// As [`TokenStream::find_after`], but the scan starts `nth` places
    /// ahead of the mark.
    pub fn find_after_nth<F: Fn(&Token) -> bool, A: Fn(&Token) -> bool>(
        &self,
        nth: usize,
        find: F,
        after: A,
    ) -> (r: Option<(usize, Token)>)
        requires
            forall|j: int| self.has(j) ==> after.requires((&#[trigger] self.ahead(j),)),
            forall|j: int| self.has(j) ==> find.requires((&#[trigger] self.ahead(j),)),
        ensures
            match r {
                Some((n, t)) => self.scan_stops(nth as int, n as int, after) && self.has(n as int)
                    && t@ == self.ahead(n as int)@ && find.ensures((&self.ahead(n as int),), true),
                None => !self.has(nth as int) || exists|n: int|
                    #![trigger self.has(n)]
                    self.scan_stops(nth as int, n, after) && (self.has(n) ==> find.ensures(
                        (&self.ahead(n),),
                        false,
                    )),
            },
    {
        proof {
            use_type_invariant(self);
        }
        let mut i: usize = nth;
        loop
            invariant
                nth <= i,
                self.consumed() + i <= self.all().len() || i == nth,
                self.consumed() <= self.all().len(),
                forall|j: int| self.has(j) ==> after.requires((&#[trigger] self.ahead(j),)),
                forall|j: int| self.has(j) ==> find.requires((&#[trigger] self.ahead(j),)),
                forall|j: int| nth <= j < i ==> after.ensures((&#[trigger] self.ahead(j),), true),
            decreases self.all().len() + nth + 1 - self.consumed() - i,
        {
            match self.nth_ref(i) {
                None => {
                    proof {
                        if self.has(nth as int) {
                            assert(self.scan_stops(nth as int, i as int, after));
                            assert(!self.has(i as int));
                        }
                    }
                    return None;
                },
                Some(t) => {
                    assert(*t == self.ahead(i as int));
                    if after(t) {
                        i += 1;
                    } else if find(t) {
                        assert(self.scan_stops(nth as int, i as int, after));
                        return Some((i, t.clone()));
                    } else {
                        assert(self.scan_stops(nth as int, i as int, after));
                        assert(self.has(i as int));
                        return None;
                    }
                },
            }
        }
    }

    /// A copy of the tokens not yet consumed.
    pub fn items(&self) -> (r: Vec<Token>)
        ensures
            token_views(r@) == self.views().skip(self.consumed() as int),
    {
        proof {
            use_type_invariant(self);
        }
        let mut out: Vec<Token> = Vec::new();
        let mut i: usize = self.position;
        while i < self.buffer.len()
            invariant
                self.position <= i <= self.buffer.len(),
                out@.len() == i - self.position,
                forall|j: int| 0 <= j < out@.len() ==> out@[j]@ == self.buffer@[self.position + j]@,
            decreases self.buffer.len() - i,
        {
            out.push(self.buffer[i].clone());
            i += 1;
        }
        assert(token_views(out@) =~= self.views().skip(self.consumed() as int));
        out
    }

    /// The number of tokens consumed so far.
    pub fn eaten(&self) -> (n: usize)
        ensures
            n == self.consumed(),
            n <= self.all().len(),
    {
        proof {
            use_type_invariant(self);
        }
        self.position
    }

    /// Consumes tokens as long as `predicate` accepts the next one, and
    /// returns those consumed.
    pub fn eat_while<F: Fn(&Token) -> bool>(&mut self, predicate: F) -> (r: Vec<Token>)
        requires
            forall|i: int|
                old(self).consumed() <= i < old(self).all().len() ==> predicate.requires(
                    (&#[trigger] old(self).all()[i],),
                ),
        ensures
            final(self).all() == old(self).all(),
            old(self).consumed() <= final(self).consumed() <= old(self).all().len(),
            forall|i: int|
                old(self).consumed() <= i < final(self).consumed() ==> predicate.ensures(
                    (&#[trigger] old(self).all()[i],),
                    true,
                ),
            final(self).has(0) ==> predicate.ensures((&final(self).ahead(0),), false),
            token_views(r@) == old(self).views().subrange(
                old(self).consumed() as int,
                final(self).consumed() as int,
            ),
    {
        proof {
            use_type_invariant(&*self);
        }
        let mut items: Vec<Token> = Vec::new();
        loop
            invariant
                self.all() == old(self).all(),
                old(self).consumed() <= self.consumed() <= old(self).all().len(),
                forall|i: int|
                    old(self).consumed() <= i < old(self).all().len() ==> predicate.requires(
                        (&#[trigger] old(self).all()[i],),
                    ),
                forall|i: int|
                    old(self).consumed() <= i < self.consumed() ==> predicate.ensures(
                        (&#[trigger] old(self).all()[i],),
                        true,
                    ),
                items@.len() == self.consumed() - old(self).consumed(),
                forall|j: int|
                    0 <= j < items@.len() ==> items@[j]@ == old(self).all()[old(self).consumed()
                        + j]@,
            ensures
                self.has(0) ==> predicate.ensures((&self.ahead(0),), false),
            decreases self.all().len() - self.consumed(),
        {
            match self.nth_ref(0) {
                None => {
                    break ;
                },
                Some(t) => {
                    if !predicate(t) {
                        break ;
                    }
                },
            }
            match self.peek() {
                Some(t) => {
                    items.push(t);
                },
                None => {},
            }
        }
        assert(token_views(items@) =~= old(self).views().subrange(
            old(self).consumed() as int,
            self.consumed() as int,
        ));
        items
    }
}

} // verus!
