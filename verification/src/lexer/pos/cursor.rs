//! A cursor over the characters of a source.
use vstd::prelude::*;

use super::Position;
use crate::text::{byte_len, chars_of, lemma_byte_len_prefix, lemma_byte_len_step, utf8_width};

verus! {

/// The character that the cursor shows where the source has ended.
pub const END_OF_FILE: char = '\0';

/// The line on which the text `s` ends, counted from one.
pub open spec fn line_of(s: Seq<char>) -> nat
    decreases s.len(),
{
    if s.len() == 0 {
        1
    } else if s.last() == '\n' {
        line_of(s.drop_last()) + 1
    } else {
        line_of(s.drop_last())
    }
}

/// The column at which the text `s` ends: the number of characters behind
/// its last line feed.
pub open spec fn column_of(s: Seq<char>) -> nat
    decreases s.len(),
{
    if s.len() == 0 || s.last() == '\n' {
        0
    } else {
        column_of(s.drop_last()) + 1
    }
}

/// A count as a machine word, held at the greatest word where it is
/// greater.
pub open spec fn capped(n: nat) -> usize {
    if n <= usize::MAX {
        n as usize
    } else {
        usize::MAX
    }
}

/// The position behind the text `s`.
pub open spec fn position_of(s: Seq<char>) -> Position {
    Position { line: capped(line_of(s)), column: capped(column_of(s)) }
}

/// Lines and columns are bounded by the length of the text.
pub proof fn lemma_position_bounds(s: Seq<char>)
    ensures
        1 <= line_of(s) <= s.len() + 1,
        column_of(s) <= s.len(),
    decreases s.len(),
{
    if s.len() > 0 {
        lemma_position_bounds(s.drop_last());
    }
}

/// A cursor over the characters of a source: it consumes them one by one,
/// keeps track of the line and the column that it has reached, and looks
/// ahead as far as asked without consuming.
pub struct Cursor {
    chars: Vec<char>,
    mark: Mark,
}

/// How far a cursor has come: the number of characters and of bytes
/// consumed, the character consumed last, and the position reached.
#[derive(Clone, Copy)]
struct Mark {
    index: usize,
    offset: usize,
    prev: char,
    pos: Position,
}

impl Cursor {
    #[verifier::type_invariant]
    spec fn inv(&self) -> bool {
        &&& self.mark.index <= self.chars@.len()
        &&& byte_len(self.chars@) <= usize::MAX
        &&& self.mark.offset == byte_len(self.chars@.take(self.mark.index as int))
        &&& self.mark.pos == position_of(self.chars@.take(self.mark.index as int))
        &&& self.mark.prev == if self.mark.index == 0 {
            END_OF_FILE
        } else {
            self.chars@[self.mark.index - 1]
        }
    }

    /// The characters of the source.
    pub closed spec fn source(&self) -> Seq<char> {
        self.chars@
    }

    /// The number of characters consumed.
    pub closed spec fn consumed(&self) -> int {
        self.mark.index as int
    }

    /// The characters consumed so far.
    pub open spec fn past(&self) -> Seq<char> {
        self.source().take(self.consumed())
    }

    /// The character `k` places ahead, or `END_OF_FILE` behind the end of
    /// the source.
    pub open spec fn ahead(&self, k: int) -> char {
        char_at(self.source(), self.consumed() + k)
    }

    /// A cursor at the start of `input`.
    pub fn new(input: &str) -> (c: Cursor)
        ensures
            c.source() == input@,
            c.consumed() == 0,
    {
        let chars = chars_of(input);
        let ilen = input.as_bytes().len();
        proof {
            assert(chars@.take(0) =~= Seq::<char>::empty());
            assert(vstd::utf8::encode_utf8(Seq::<char>::empty()) =~= Seq::<u8>::empty());
        }
        Cursor {
            chars,
            mark: Mark { index: 0, offset: 0, prev: END_OF_FILE, pos: Position::new(1, 0) },
        }
    }

    /// Consumes one character and returns it. A line feed begins a new line
    /// at column zero; any other character moves one column on. `None` at
    /// the end of the source.
    pub fn peek(&mut self) -> (r: Option<char>)
        ensures
            final(self).source() == old(self).source(),
            match r {
                Some(c) => old(self).consumed() < old(self).source().len() && c == old(
                    self,
                ).source()[old(self).consumed()] && final(self).consumed() == old(self).consumed()
                    + 1,
                None => old(self).consumed() == old(self).source().len() && final(self).consumed()
                    == old(self).consumed(),
            },
    {
        proof {
            use_type_invariant(&*self);
        }
        let mark = self.mark;
        if mark.index >= self.chars.len() {
            return None;
        }
        let c = self.chars[mark.index];
        proof {
            let s = self.chars@;
            let i = mark.index as int;
            lemma_byte_len_step(s, i);
            lemma_byte_len_prefix(s, i + 1);
            lemma_position_bounds(s.take(i));
            lemma_position_bounds(s.take(i + 1));
            assert(s.take(i + 1).drop_last() =~= s.take(i));
            assert(s.take(i + 1).last() == c);
        }
        let pos = if is_line_ending(c) {
            Position {
                line: if mark.pos.line < usize::MAX {
                    mark.pos.line + 1
                } else {
                    mark.pos.line
                },
                column: 0,
            }
        } else {
            Position { line: mark.pos.line, column: mark.pos.column + 1 }
        };
        self.mark = Mark {
            index: mark.index + 1,
            offset: mark.offset + utf8_width(c),
            prev: c,
            pos,
        };
        Some(c)
    }

    /// Consumes as many characters as bytes have been consumed so far, or
    /// those left if they are fewer, and returns the last of them;
    /// `END_OF_FILE` where fewer were left.
    pub fn unpeek(&mut self) -> (c: char)
        requires
            crate::text::byte_len(old(self).past()) > 0,
        ensures
            final(self).source() == old(self).source(),
            final(self).consumed() == reach(
                old(self).source(),
                old(self).consumed(),
                byte_len(old(self).past()) as int,
            ),
            c == char_at(
                old(self).source(),
                if old(self).consumed() + byte_len(old(self).past()) <= old(self).source().len() {
                    old(self).consumed() + byte_len(old(self).past()) - 1
                } else {
                    -1
                },
            ),
    {
        let n = self.eaten();
        let left = self.remaining();
        let _ = self.index();
        self.peek_inc(n - 1);
        if n <= left {
            self.get_prev()
        } else {
            END_OF_FILE
        }
    }

    /// Whether the source has ended.
    pub fn is_eof(&self) -> (b: bool)
        ensures
            b == (self.consumed() >= self.source().len()),
            0 <= self.consumed() <= self.source().len(),
    {
        proof {
            use_type_invariant(self);
        }
        self.mark.index >= self.chars.len()
    }

    /// The next character, which is not consumed.
    pub fn first(&self) -> (c: char)
        ensures
            c == self.ahead(0),
    {
        self.nth_char(0)
    }

    /// The character behind the next, which is not consumed.
    pub fn second(&self) -> (c: char)
        ensures
            c == self.ahead(1),
    {
        self.nth_char(1)
    }

    /// The character `amt` places ahead, which is not consumed;
    /// `END_OF_FILE` behind the end of the source.
    pub fn nth_char(&self, amt: usize) -> (c: char)
        ensures
            c == self.ahead(amt as int),
            0 <= self.consumed() <= self.source().len() <= usize::MAX,
    {
        proof {
            use_type_invariant(self);
        }
        if amt < self.chars.len() - self.mark.index {
            self.chars[self.mark.index + amt]
        } else {
            END_OF_FILE
        }
    }

    /// A copy of the characters not yet consumed.
    pub fn chars(&self) -> (v: Vec<char>)
        ensures
            v@ == self.source().skip(self.consumed()),
    {
        proof {
            use_type_invariant(self);
        }
        let mut v: Vec<char> = Vec::new();
        let mut i: usize = self.mark.index;
        while i < self.chars.len()
            invariant
                self.mark.index <= i <= self.chars.len(),
                v@ == self.chars@.subrange(self.mark.index as int, i as int),
            decreases self.chars.len() - i,
        {
            v.push(self.chars[i]);
            i += 1;
            assert(self.chars@.subrange(self.mark.index as int, i as int)
                =~= self.chars@.subrange(self.mark.index as int, i - 1).push(self.chars@[i - 1]));
        }
        assert(v@ =~= self.chars@.skip(self.mark.index as int));
        v
    }

    /// The line and the column behind the characters consumed.
    pub fn get_pos(&self) -> (p: Position)
        ensures
            p == position_of(self.past()),
    {
        proof {
            use_type_invariant(self);
        }
        self.mark.pos
    }

    /// The character consumed last; `END_OF_FILE` before the first.
    pub fn get_prev(&self) -> (c: char)
        ensures
            c == if self.consumed() == 0 {
                END_OF_FILE
            } else {
                self.source()[self.consumed() - 1]
            },
    {
        proof {
            use_type_invariant(self);
        }
        self.mark.prev
    }

    /// Consumes one character and returns the position behind it.
    pub fn peek_get_pos(&mut self) -> (p: Position)
        ensures
            final(self).source() == old(self).source(),
            final(self).consumed() == if old(self).consumed() < old(self).source().len() {
                old(self).consumed() + 1
            } else {
                old(self).consumed()
            },
            p == position_of(final(self).past()),
    {
        self.peek();
        self.get_pos()
    }

    /// Consumes `x + 1` characters, or those left if they are fewer, and
    /// returns the position behind them.
    pub fn ipeek_get_pos(&mut self, x: usize) -> (p: Position)
        ensures
            final(self).source() == old(self).source(),
            final(self).consumed() == reach(old(self).source(), old(self).consumed(), x + 1),
            p == position_of(final(self).past()),
    {
        self.peek_inc(x);
        self.get_pos()
    }

    /// Consumes `x + 1` characters, or those left if they are fewer.
    pub fn peek_inc(&mut self, x: usize)
        ensures
            final(self).source() == old(self).source(),
            final(self).consumed() == reach(old(self).source(), old(self).consumed(), x + 1),
    {
        let mut i: usize = 0;
        let _ = self.is_eof();
        while !self.is_eof() && i <= x
            invariant
                self.source() == old(self).source(),
                0 <= i <= x + 1,
                self.consumed() == old(self).consumed() + i,
                self.consumed() <= self.source().len(),
            decreases x + 1 - i,
        {
            self.peek();
            i += 1;
        }
    }

    /// The number of bytes consumed.
    pub fn eaten(&self) -> (n: usize)
        ensures
            n == byte_len(self.past()),
            n <= byte_len(self.source()),
    {
        proof {
            use_type_invariant(self);
            lemma_byte_len_prefix(self.chars@, self.mark.index as int);
        }
        self.mark.offset
    }

    /// The number of characters consumed.
    pub fn index(&self) -> (n: usize)
        ensures
            n == self.consumed(),
            n <= self.source().len() <= usize::MAX,
    {
        proof {
            use_type_invariant(self);
        }
        let _ = self.chars.len();
        self.mark.index
    }

    /// The number of characters not yet consumed.
    pub fn remaining(&self) -> (n: usize)
        ensures
            n == self.source().len() - self.consumed(),
    {
        proof {
            use_type_invariant(self);
        }
        self.chars.len() - self.mark.index
    }

    /// The characters of the source from the place `from` to the place `to`.
    pub fn text_between(&self, from: usize, to: usize) -> (text: String)
        requires
            from <= to <= self.source().len(),
        ensures
            text@ == self.source().subrange(from as int, to as int),
    {
        crate::text::string_of(&self.chars, from, to)
    }

    /// Whether the characters of `word` are the next characters.
    pub fn looking_at(&self, word: &str) -> (b: bool)
        ensures
            b == spelled(self.source(), self.consumed(), word@),
    {
        proof {
            use_type_invariant(self);
        }
        let w = chars_of(word);
        if w.len() > self.chars.len() - self.mark.index {
            return false;
        }
        let mut k: usize = 0;
        while k < w.len()
            invariant
                k <= w.len(),
                w@ == word@,
                self.mark.index + w.len() <= self.chars.len(),
                forall|j: int| 0 <= j < k ==> self.chars@[self.mark.index + j] == w@[j],
            decreases w.len() - k,
        {
            if self.chars[self.mark.index + k] != w[k] {
                assert(self.chars@.subrange(
                    self.mark.index as int,
                    self.mark.index + w.len(),
                )[k as int] != w@[k as int]);
                return false;
            }
            k += 1;
        }
        assert(self.chars@.subrange(self.mark.index as int, self.mark.index + w.len()) =~= w@);
        true
    }

    /// Consumes characters as long as `pred` accepts the next one, and
    /// returns those consumed.
    pub fn eat_while<F: Fn(char) -> bool>(&mut self, pred: F) -> (segment: String)
        requires
            forall|c: char| pred.requires((c,)),
        ensures
            final(self).source() == old(self).source(),
            old(self).consumed() <= final(self).consumed() <= old(self).source().len(),
            segment@ == old(self).source().subrange(old(self).consumed(), final(self).consumed()),
            forall|i: int|
                old(self).consumed() <= i < final(self).consumed() ==> pred.ensures(
                    (#[trigger] old(self).source()[i],),
                    true,
                ),
            final(self).consumed() < old(self).source().len() ==> pred.ensures(
                (old(self).source()[final(self).consumed()],),
                false,
            ),
    {
        let mut segment = String::new();
        let ghost start = self.consumed();
        proof {
            use_type_invariant(&*self);
            assert(self.source().subrange(start, start) =~= Seq::<char>::empty());
        }
        loop
            invariant
                self.source() == old(self).source(),
                start == old(self).consumed(),
                start <= self.consumed() <= self.source().len(),
                segment@ == self.source().subrange(start, self.consumed()),
                forall|c: char| pred.requires((c,)),
                forall|i: int|
                    start <= i < self.consumed() ==> pred.ensures(
                        (#[trigger] self.source()[i],),
                        true,
                    ),
            ensures
                self.consumed() < self.source().len() ==> pred.ensures(
                    (self.source()[self.consumed()],),
                    false,
                ),
            decreases self.source().len() - self.consumed(),
        {
            if self.is_eof() {
                break ;
            }
            let c = self.first();
            if !pred(c) {
                break ;
            }
            let ghost before = self.consumed();
            self.peek();
            segment.push(c);
            proof {
                assert(self.source().subrange(start, before + 1) =~= self.source().subrange(
                    start,
                    before,
                ).push(c));
            }
        }
        segment
    }

    /// Consumes characters as long as `pred` accepts the next one, where
    /// `pred` is handed the cursor and may itself consume characters, and
    /// returns the characters that the cursor consumed between the
    /// questions. Where the source ends while `pred` consumes, and `pred`
    /// still accepts, `END_OF_FILE` ends what is returned.
    pub fn eat_while_cursor<F: Fn(&mut Cursor, char) -> bool>(&mut self, pred: F) -> (segment:
        String)
        requires
            forall|c: &mut Cursor, ch: char| pred.requires((c, ch)),
            forall|c: &mut Cursor, ch: char, b: bool| #[trigger]
                pred.ensures((c, ch), b) ==> final(c).source() == c.source() && c.consumed()
                    <= final(c).consumed(),
        ensures
            final(self).source() == old(self).source(),
            old(self).consumed() <= final(self).consumed() <= old(self).source().len(),
            segment@.len() <= final(self).consumed() - old(self).consumed(),
            (forall|c: &mut Cursor, ch: char, b: bool| #[trigger]
                pred.ensures((c, ch), b) ==> final(c).consumed() == c.consumed()) ==> {
                &&& segment@ == old(self).source().subrange(
                    old(self).consumed(),
                    final(self).consumed(),
                )
                &&& forall|i: int|
                    old(self).consumed() <= i < final(self).consumed() ==> #[trigger] answered(
                        pred,
                        old(self).source(),
                        i,
                        true,
                    )
                &&& final(self).consumed() < old(self).source().len() ==> answered(
                    pred,
                    old(self).source(),
                    final(self).consumed(),
                    false,
                )
            },
    {
        let mut segment = String::new();
        let ghost s = self.source();
        let ghost start = self.consumed();
        proof {
            use_type_invariant(&*self);
            assert(s.subrange(start, start) =~= Seq::<char>::empty());
        }
        loop
            invariant
                self.source() == s,
                s == old(self).source(),
                start == old(self).consumed(),
                start <= self.consumed() <= s.len(),
                segment@.len() <= self.consumed() - start,
                forall|c: &mut Cursor, ch: char| pred.requires((c, ch)),
                forall|c: &mut Cursor, ch: char, b: bool| #[trigger]
                    pred.ensures((c, ch), b) ==> final(c).source() == c.source() && c.consumed()
                        <= final(c).consumed(),
                (forall|c: &mut Cursor, ch: char, b: bool| #[trigger]
                    pred.ensures((c, ch), b) ==> final(c).consumed() == c.consumed()) ==> segment@ == s.subrange(start, self.consumed()),
                (forall|c: &mut Cursor, ch: char, b: bool| #[trigger]
                    pred.ensures((c, ch), b) ==> final(c).consumed() == c.consumed()) ==> forall|i: int|
                    start <= i < self.consumed() ==> #[trigger] answered(pred, s, i, true),
            ensures
                (forall|c: &mut Cursor, ch: char, b: bool| #[trigger]
                    pred.ensures((c, ch), b) ==> final(c).consumed() == c.consumed()) && self.consumed() < s.len() ==> answered(pred, s, self.consumed(), false),
            decreases s.len() - self.consumed(),
        {
            if self.is_eof() {
                break ;
            }
            let c = self.first();
            let ghost before = self.consumed();
            if !pred(self, c) {
                let _ = self.is_eof();
                break ;
            }
            let _ = self.is_eof();
            let ghost middle = self.consumed();
            match self.peek() {
                Some(x) => {
                    segment.push(x);
                },
                None => {
                    segment.push(END_OF_FILE);
                },
            }
            proof {
                assert(s.subrange(start, before + 1) =~= s.subrange(start, before).push(c));
            }
        }
        segment
    }
}

/// Whether `pred`, asked about the character at `i` in `s` with a cursor
/// that stands there, may answer `b`.
pub open spec fn answered<F: Fn(&mut Cursor, char) -> bool>(
    pred: F,
    s: Seq<char>,
    i: int,
    b: bool,
) -> bool {
    exists|c: &mut Cursor|
        c.source() == s && c.consumed() == i && #[trigger] pred.ensures((c, s[i]), b)
}

/// Whether the characters of `word` stand at `i` in `s`.
pub open spec fn spelled(s: Seq<char>, i: int, word: Seq<char>) -> bool {
    0 <= i && i + word.len() <= s.len() && s.subrange(i, i + word.len()) == word
}

/// The character at `i` in `s`, or `END_OF_FILE` where `s` has none there.
pub open spec fn char_at(s: Seq<char>, i: int) -> char {
    if 0 <= i < s.len() {
        s[i]
    } else {
        END_OF_FILE
    }
}

/// The place that is reached from `from` in `s` by consuming `n`
/// characters, or those left if they are fewer.
pub open spec fn reach(s: Seq<char>, from: int, n: int) -> int {
    if from + n <= s.len() {
        from + n
    } else if from <= s.len() {
        s.len() as int
    } else {
        from
    }
}

fn is_line_ending(c: char) -> (b: bool)
    ensures
        b == (c == '\n'),
{
    c == '\n'
}

} // verus!
