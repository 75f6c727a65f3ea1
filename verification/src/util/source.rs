//! The text of a source as the diagnostics see it: a buffer, and its lines
//! with their places in the buffer.
use vstd::prelude::*;

use std::ops::Range;

use crate::lexer::pos::cursor::capped;
use crate::lexer::rules::{lemma_run, lemma_run_is, offset, run, CharClass};
use crate::text::{
    byte_len, byte_length, chars_of, lemma_byte_len_prefix, lemma_byte_len_step, string_of,
    trim_start, trimmed_start, utf8_width,
};

verus! {

/// The text of a source.
#[derive(Debug)]
pub struct SourceBuffer {
    pub source: String,
}

/// One line of a source: the byte offset at which it begins, its length in
/// bytes, its number, counted from one, and its text without the line feed.
#[derive(Debug)]
pub struct SourceLine {
    offset: usize,
    len: usize,
    line: usize,
    source: String,
}

/// The mathematical value of a [`SourceLine`].
pub ghost struct SourceLineView {
    pub offset: usize,
    pub len: usize,
    pub line: usize,
    pub text: Seq<char>,
}

impl View for SourceLine {
    type V = SourceLineView;

    closed spec fn view(&self) -> SourceLineView {
        SourceLineView { offset: self.offset, len: self.len, line: self.line, text: self.source@ }
    }
}

impl Clone for SourceLine {
    fn clone(&self) -> (r: Self)
        ensures
            r@ == self@,
    {
        proof {
            use_type_invariant(self);
        }
        SourceLine {
            offset: self.offset,
            len: self.len,
            line: self.line,
            source: self.source.clone(),
        }
    }
}

impl Clone for SourceBuffer {
    fn clone(&self) -> (r: Self)
        ensures
            r.source@ == self.source@,
    {
        SourceBuffer { source: self.source.clone() }
    }
}

impl SourceLineView {
    /// Whether the byte offset `offset` lies on the line: between its
    /// first byte and the byte behind its last, both included.
    pub open spec fn holds(self, offset: int) -> bool {
        self.offset <= offset <= self.offset + self.len
    }

    /// The number of bytes of leading whitespace that the text of the line
    /// has lost against its length.
    pub open spec fn trimmed_bytes(self) -> int {
        self.len - byte_len(trimmed_start(self.text))
    }

    /// The number of spaces that stand before the underline of a range
    /// that begins at the byte offset `start`: one, and the distance of
    /// `start` from the first byte of the line that is no leading
    /// whitespace. Where `start` lies before that byte, the distance is
    /// zero.
    pub open spec fn spaces_until(self, start: int) -> int {
        let distance = start - self.offset - self.trimmed_bytes();
        if distance > 0 {
            distance + 1
        } else {
            1
        }
    }
}

/// The difference of two counts, or zero where the second is the greater.
pub fn less(a: usize, b: usize) -> (r: usize)
    ensures
        r == if a >= b {
            a - b
        } else {
            0
        },
{
    if a >= b {
        a - b
    } else {
        0
    }
}

impl SourceLine {
    #[verifier::type_invariant]
    spec fn inv(&self) -> bool {
        byte_len(self.source@) <= self.len
    }

    /// The line with the number `line` that begins at the byte offset
    /// `offset` and whose text is `source`. Its length is that of the text.
    pub fn new(offset: usize, line: usize, source: String) -> (r: Self)
        ensures
            r@ == (SourceLineView {
                offset,
                len: byte_len(source@) as usize,
                line,
                text: source@,
            }),
            r@.len == byte_len(source@),
    {
        Self { offset, len: byte_length(source.as_str()), line, source }
    }

    /// The range `range` counted from the first byte of the line.
    pub fn offset_relative(&self, range: Range<usize>) -> (r: Range<usize>)
        requires
            self@.offset <= range.start,
            self@.offset <= range.end,
        ensures
            r.start == range.start - self@.offset,
            r.end == range.end - self@.offset,
    {
        let start = range.start - self.offset;
        let end = range.end - self.offset;
        start..end
    }

    /// The number of spaces that stand before the underline of `range`
    /// where the line is shown without its leading whitespace.
    pub fn spaces_until(&self, range: Range<usize>) -> (n: usize)
        requires
            range.start < usize::MAX,
        ensures
            n == self@.spaces_until(range.start as int),
    {
        proof {
            use_type_invariant(self);
            crate::text::lemma_trimmed_bytes(self.source@);
        }
        let trimmed = trim_start(self.source.as_str());
        let relative_start = less(range.start, self.offset);
        let trimmed_amt = self.len - byte_length(trimmed.as_str());
        less(relative_start, trimmed_amt) + 1
    }

    pub fn offset(&self) -> (n: usize)
        ensures
            n == self@.offset,
    {
        self.offset
    }

    pub fn len(&self) -> (n: usize)
        ensures
            n == self@.len,
    {
        self.len
    }

    pub fn source(&self) -> (s: &str)
        ensures
            s@ == self@.text,
    {
        self.source.as_str()
    }

    /// The byte offset behind the last byte of the line.
    pub fn offset_max(&self) -> (n: usize)
        requires
            self@.offset + self@.len <= usize::MAX,
        ensures
            n == self@.offset + self@.len,
    {
        self.offset + self.len
    }

    pub fn line(&self) -> (n: usize)
        ensures
            n == self@.line,
    {
        self.line
    }

    /// The line with its text stripped of leading whitespace. Its offset
    /// and its length stay as they are.
    pub fn trim(self) -> (r: Self)
        ensures
            r@ == (SourceLineView { text: trimmed_start(self@.text), ..self@ }),
    {
        proof {
            use_type_invariant(&self);
            crate::text::lemma_trimmed_bytes(self.source@);
        }
        SourceLine {
            offset: self.offset,
            len: self.len,
            line: self.line,
            source: trim_start(self.source.as_str()),
        }
    }
}

/// The lines of the text `s` from the place `i` on, where the first of
/// them has the number `number`. A line ends before a line feed or at the
/// end of the text; behind the last line feed stands a last line, which may
/// be empty.
pub open spec fn lines_from(s: Seq<char>, i: int, number: nat) -> Seq<SourceLineView>
    decreases crate::lexer::rules::left(s, i),
{
    let n = run(s, i, CharClass::InLine);
    let line = SourceLineView {
        offset: offset(s, i) as usize,
        len: byte_len(s.subrange(i, i + n)) as usize,
        line: capped(number),
        text: s.subrange(i, i + n),
    };
    if 0 <= i && i + n < s.len() {
        seq![line] + lines_from(s, i + n + 1, number + 1)
    } else {
        seq![line]
    }
}

/// The lines of the text `s`.
pub open spec fn lines_of(s: Seq<char>) -> Seq<SourceLineView> {
    lines_from(s, 0, 1)
}

/// The first of the lines `lines` from the `k`-th on that holds the byte
/// offset `offset`.
pub open spec fn line_holding(lines: Seq<SourceLineView>, k: int, offset: int) -> Option<
    SourceLineView,
>
    decreases lines.len() - k,
{
    if !(0 <= k < lines.len()) {
        None
    } else if lines[k].holds(offset) {
        Some(lines[k])
    } else {
        line_holding(lines, k + 1, offset)
    }
}

/// The values of the lines of `lines`, in order.
pub open spec fn line_views(lines: Seq<SourceLine>) -> Seq<SourceLineView> {
    lines.map_values(|l: SourceLine| l@)
}

impl SourceBuffer {
    pub fn new(source: String) -> (r: Self)
        ensures
            r.source == source,
    {
        Self { source }
    }

    /// A buffer without text.
    pub fn empty() -> (r: Self)
        ensures
            r.source@ == Seq::<char>::empty(),
    {
        Self { source: String::new() }
    }

    /// The character at the place `i` of the text, or a space where the
    /// text has none there.
    pub open spec fn padded(&self, i: int) -> char {
        if 0 <= i < self.source@.len() {
            self.source@[i]
        } else {
            ' '
        }
    }

    /// The characters at the places of `rng`, counted in characters. Places
    /// behind the end of the text give spaces.
    pub fn get(&self, rng: Range<usize>) -> (r: String)
        ensures
            r@.len() == if rng.start <= rng.end {
                rng.end - rng.start
            } else {
                0
            },
            forall|k: int| 0 <= k < r@.len() ==> r@[k] == self.padded(rng.start + k),
    {
        let chars = chars_of(self.source.as_str());
        let mut result = String::new();
        let mut i: usize = rng.start;
        while i < rng.end
            invariant
                chars@ == self.source@,
                rng.start <= i,
                i <= rng.end || rng.end < rng.start,
                rng.end < rng.start ==> i == rng.start,
                result@.len() == i - rng.start,
                forall|k: int| 0 <= k < result@.len() ==> result@[k] == self.padded(rng.start + k),
            decreases rng.end - i,
        {
            let c = if i < chars.len() {
                chars[i]
            } else {
                ' '
            };
            result.push(c);
            i += 1;
        }
        result
    }

    /// The characters of the text.
    pub fn chars(&self) -> (v: Vec<char>)
        ensures
            v@ == self.source@,
    {
        chars_of(self.source.as_str())
    }

    /// The lines of the text, computed anew at each call.
    pub fn get_lines(&self) -> (lines: Vec<SourceLine>)
        ensures
            line_views(lines@) == lines_of(self.source@),
            lines@.len() >= 1,
    {
        let chars = chars_of(self.source.as_str());
        let total = byte_length(self.source.as_str());
        let ghost s = self.source@;
        let mut lines: Vec<SourceLine> = Vec::new();
        let mut line_start: usize = 0;
        let mut start_offset: usize = 0;
        let mut cur_offset: usize = 0;
        let mut line: usize = 1;
        let ghost mut number: nat = 1;
        let mut i: usize = 0;
        proof {
            assert(s.take(0) =~= Seq::<char>::empty());
            assert(vstd::utf8::encode_utf8(Seq::<char>::empty()) =~= Seq::<u8>::empty());
            assert(s.subrange(0, 0) =~= Seq::<char>::empty());
            assert(line_views(lines@) + lines_from(s, 0, 1) =~= lines_from(s, 0, 1));
        }
        while i < chars.len()
            invariant
                chars@ == s,
                s == self.source@,
                total == byte_len(s),
                0 <= line_start <= i <= chars.len(),
                start_offset == offset(s, line_start as int),
                cur_offset == offset(s, i as int),
                cur_offset - start_offset == byte_len(s.subrange(line_start as int, i as int)),
                line == capped(number),
                forall|k: int| line_start <= k < i ==> s[k] != '\n',
                line_views(lines@) + lines_from(s, line_start as int, number) == lines_of(s),
            decreases chars.len() - i,
        {
            let c = chars[i];
            proof {
                lemma_byte_len_step(s, i as int);
                lemma_byte_len_prefix(s, i + 1);
                assert(s.take(s.len() as int) =~= s);
            }
            if c == '\n' {
                let text = string_of(&chars, line_start, i);
                proof {
                    lemma_run_is(s, line_start as int, i - line_start, CharClass::InLine);
                }
                let ghost before = line_views(lines@);
                lines.push(
                    SourceLine { offset: start_offset, len: cur_offset - start_offset, source: text, line },
                );
                proof {
                    let rest = lines_from(s, i + 1, number + 1);
                    let l = lines@[lines@.len() - 1]@;
                    assert(line_views(lines@) =~= before.push(l));
                    assert(before.push(l) + rest =~= before + (seq![l] + rest));
                    assert(s.subrange(i + 1, i + 1) =~= Seq::<char>::empty());
                    assert(vstd::utf8::encode_utf8(Seq::<char>::empty()) =~= Seq::<u8>::empty());
                    number = number + 1;
                }
                if line < usize::MAX {
                    line += 1;
                }
                cur_offset += utf8_width(c);
                line_start = i + 1;
                start_offset = cur_offset;
            } else {
                proof {
                    let a = line_start as int;
                    let part = s.subrange(a, i + 1);
                    assert(part.take(i - a) =~= s.subrange(a, i as int));
                    assert(part.take(i - a + 1) =~= part);
                    lemma_byte_len_step(part, i - a);
                }
                cur_offset += utf8_width(c);
            }
            i += 1;
        }
        let text = string_of(&chars, line_start, i);
        proof {
            lemma_run_is(s, line_start as int, i - line_start, CharClass::InLine);
        }
        let ghost before = line_views(lines@);
        lines.push(
            SourceLine { offset: start_offset, len: cur_offset - start_offset, source: text, line },
        );
        proof {
            let l = lines@[lines@.len() - 1]@;
            assert(line_views(lines@) =~= before.push(l));
            assert(before.push(l) =~= before + seq![l]);
        }
        lines
    }

    /// The line that holds the byte offset `offset`: the first line that
    /// begins at or before it and ends at or behind it. `None` where the
    /// offset lies behind the text.
    pub fn get_line_at(&self, offset: usize) -> (r: Option<SourceLine>)
        ensures
            match r {
                Some(l) => line_holding(lines_of(self.source@), 0, offset as int) == Some(l@),
                None => line_holding(lines_of(self.source@), 0, offset as int) is None,
            },
    {
        let lines = self.get_lines();
        let ghost all = lines_of(self.source@);
        let mut k: usize = 0;
        while k < lines.len()
            invariant
                k <= lines.len(),
                all == lines_of(self.source@),
                line_views(lines@) == all,
                line_holding(all, 0, offset as int) == line_holding(all, k as int, offset as int),
            decreases lines.len() - k,
        {
            let l = &lines[k];
            assert(all[k as int] == l@);
            if offset >= l.offset && offset - l.offset <= l.len {
                return Some(l.clone());
            }
            k += 1;
        }
        None
    }
}

} // verus!
