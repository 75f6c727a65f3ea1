//! Diagnostics: reports that show the lines of a source that are at fault,
//! underlined, with a message.
use vstd::prelude::*;

use std::ops::Range;

use crate::lexer::pos::cursor::capped;
use crate::lexer::rules::{lemma_run, offset, run, CharClass};
use crate::text::{
    byte_len, byte_length, decimal, decimal_string, joined, repeated, trimmed_start,
};
use crate::util::source::{
    less, line_holding, line_views, lines_from, lines_of, SourceBuffer, SourceLineView,
};

pub use crate::text::repeat_char;

verus! {

/// How grave a report is.
#[derive(Copy, Clone, Debug, PartialEq, Eq, Structural)]
pub enum ReportKind {
    Error,
    Warning,
    Notice,
}

impl ReportKind {
    /// The name of the kind.
    pub open spec fn name(self) -> Seq<char> {
        match self {
            ReportKind::Error => "Error"@,
            ReportKind::Warning => "Warning"@,
            ReportKind::Notice => "Notice"@,
        }
    }

    pub fn to_string(&self) -> (s: String)
        ensures
            s@ == self.name(),
    {
        match self {
            ReportKind::Error => "Error".to_string(),
            ReportKind::Warning => "Warning".to_string(),
            ReportKind::Notice => "Notice".to_string(),
        }
    }
}

/// The characters that reports are drawn with.
#[derive(Copy, Clone, Debug)]
pub struct Charset {
    pub dash: char,
    pub pipe: char,
    pub space: char,
    pub underline: char,
    pub open: char,
    pub close: char,
    pub rarrow: char,
    pub larrow: char,
}

impl Charset {
    pub fn defaults() -> (c: Self)
        ensures
            c == (Charset {
                dash: '-',
                pipe: '|',
                space: ' ',
                underline: '~',
                open: '[',
                close: ']',
                rarrow: '>',
                larrow: '<',
            }),
    {
        Charset {
            dash: '-',
            pipe: '|',
            space: ' ',
            underline: '~',
            open: '[',
            close: ']',
            rarrow: '>',
            larrow: '<',
        }
    }
}

/// A text that is shown with spaces before and behind it.
pub struct SizedPadding {
    pub text: String,
    pub charset: Charset,
    pub left: Option<usize>,
    pub right: Option<usize>,
}

/// The text `text` with spaces behind it up to the width `size`, counted in
/// bytes. A text that is wider stays as it is.
pub open spec fn padded(text: Seq<char>, space: char, size: nat) -> Seq<char> {
    text + repeated(
        space,
        if size >= byte_len(text) {
            (size - byte_len(text)) as nat
        } else {
            0
        },
    )
}

impl SizedPadding {
    /// The text `text` padded on the right up to the width `size`.
    pub fn new(text: String, charset: Charset, size: usize) -> (p: Self)
        ensures
            p.text == text,
            p.charset == charset,
            p.left is None,
            p.right == Some(size),
    {
        SizedPadding { text, charset, left: None, right: Some(size) }
    }

    /// The text `text` with `size` spaces on the left, and padded on the
    /// right up to the width `size`.
    pub fn new_even(text: String, charset: Charset, size: usize) -> (p: Self)
        ensures
            p.text == text,
            p.charset == charset,
            p.left == Some(size),
            p.right == Some(size),
    {
        SizedPadding { text, charset, left: Some(size), right: Some(size) }
    }

    /// What the padding shows.
    pub open spec fn shown(&self) -> Seq<char> {
        repeated(
            self.charset.space,
            match self.left {
                Some(n) => n as nat,
                None => 0,
            },
        ) + match self.right {
            Some(n) => padded(self.text@, self.charset.space, n as nat),
            None => self.text@,
        }
    }

    /// The spaces on the left, the text, and the spaces on the right.
    pub fn to_string(&self) -> (s: String)
        ensures
            s@ == self.shown(),
    {
        let mut out = match self.left {
            Some(n) => repeat_char(self.charset.space, n),
            None => String::new(),
        };
        out.append(self.text.as_str());
        match self.right {
            Some(n) => {
                let fill = repeat_char(
                    self.charset.space,
                    less(n, byte_length(self.text.as_str())),
                );
                out.append(fill.as_str());
                proof {
                    assert(out@ =~= self.shown());
                }
            },
            None => {
                proof {
                    assert(out@ =~= self.shown());
                }
            },
        }
        out
    }
}

/// One place of a source that a report shows: the bytes at fault, a
/// message, and a hint that is written behind the underline.
#[derive(Debug)]
pub struct Snippet {
    pub message: String,
    pub inline: String,
    source: SourceBuffer,
    multiline: bool,
    range: Range<usize>,
}

/// The mathematical value of a [`Snippet`].
pub ghost struct SnippetView {
    pub message: Seq<char>,
    pub inline: Seq<char>,
    pub source: Seq<char>,
    pub multiline: bool,
    pub start: usize,
    pub end: usize,
}

impl View for Snippet {
    type V = SnippetView;

    closed spec fn view(&self) -> SnippetView {
        SnippetView {
            message: self.message@,
            inline: self.inline@,
            source: self.source.source@,
            multiline: self.multiline,
            start: self.range.start,
            end: self.range.end,
        }
    }
}

impl Clone for Snippet {
    fn clone(&self) -> (r: Self)
        ensures
            r@ == self@,
    {
        Snippet {
            message: self.message.clone(),
            inline: self.inline.clone(),
            source: self.source.clone(),
            multiline: self.multiline,
            range: self.range.start..self.range.end,
        }
    }
}

/// The width of the column of line numbers for a source of `count` lines:
/// that of the greatest line number, and at least three.
pub open spec fn gutter(count: nat) -> nat {
    if decimal(count).len() < 3 {
        3
    } else {
        decimal(count).len()
    }
}

impl SnippetView {
    /// Whether the range of the snippet begins within the source.
    pub open spec fn in_source(self) -> bool {
        self.start <= byte_len(self.source)
    }

    /// The line that holds the first byte of the range.
    pub open spec fn line(self) -> SourceLineView {
        line_holding(lines_of(self.source), 0, self.start as int)->0
    }

    /// The number of bytes of the range; zero for a range that ends before
    /// it begins.
    pub open spec fn count(self) -> nat {
        if self.end >= self.start {
            (self.end - self.start) as nat
        } else {
            0
        }
    }

    /// The underline: one `~` for each byte of the range.
    pub open spec fn underline(self) -> Seq<char> {
        repeated('~', self.count())
    }

    /// The width of the column of line numbers.
    pub open spec fn width(self) -> nat {
        gutter(lines_of(self.source).len())
    }

    /// The first row: the number of the line, and the line without its
    /// leading whitespace.
    pub open spec fn source_row(self) -> Seq<char> {
        padded(decimal(self.line().line as nat), ' ', self.width()) + " | "@ + trimmed_start(
            self.line().text,
        )
    }

    /// The second row: the underline below the bytes of the range, and the
    /// hint behind it.
    pub open spec fn underline_row(self) -> Seq<char> {
        repeated(' ', self.width()) + " |"@ + repeated(
            ' ',
            self.line().spaces_until(self.start as int) as nat,
        ) + self.underline() + " "@ + self.inline
    }

    /// The third row: the message.
    pub open spec fn message_row(self) -> Seq<char> {
        padded("Err"@, ' ', self.width()) + " | ---> "@ + self.message
    }

    /// The three rows of the snippet, each on a line of its own.
    pub open spec fn rendered(self) -> Seq<char> {
        self.source_row() + "\n"@ + self.underline_row() + "\n"@ + self.message_row()
    }
}

impl Snippet {
    /// A snippet of `source` for the bytes `range`, with the message
    /// `message` and no hint.
    pub fn new(source: SourceBuffer, message: String, range: Range<usize>) -> (s: Self)
        ensures
            s@ == (SnippetView {
                message: message@,
                inline: Seq::empty(),
                source: source.source@,
                multiline: false,
                start: range.start,
                end: range.end,
            }),
    {
        Snippet { message, inline: String::new(), source, range, multiline: false }
    }

    /// A snippet of an empty source for the first byte, without message or
    /// hint.
    pub fn empty() -> (s: Self)
        ensures
            s@ == (SnippetView {
                message: Seq::empty(),
                inline: Seq::empty(),
                source: Seq::empty(),
                multiline: false,
                start: 0,
                end: 1,
            }),
    {
        Snippet {
            message: String::new(),
            inline: String::new(),
            source: SourceBuffer::empty(),
            range: 0..1,
            multiline: false,
        }
    }

    pub fn set_message(self, message: String) -> (s: Self)
        ensures
            s@ == (SnippetView { message: message@, ..self@ }),
    {
        let mut s = self;
        s.message = message;
        s
    }

    pub fn set_inline(self, inline: String) -> (s: Self)
        ensures
            s@ == (SnippetView { inline: inline@, ..self@ }),
    {
        let mut s = self;
        s.inline = inline;
        s
    }

    pub fn set_source(self, source: SourceBuffer) -> (s: Self)
        ensures
            s@ == (SnippetView { source: source.source@, ..self@ }),
    {
        let mut s = self;
        s.source = source;
        s
    }

    pub fn set_range(self, range: Range<usize>) -> (s: Self)
        ensures
            s@ == (SnippetView { start: range.start, end: range.end, ..self@ }),
    {
        let mut s = self;
        s.range = range;
        s
    }

    pub fn set_multiline(self, multiline: bool) -> (s: Self)
        ensures
            s@ == (SnippetView { multiline, ..self@ }),
    {
        let mut s = self;
        s.multiline = multiline;
        s
    }

    /// Whether the range of the snippet begins within its source, so that
    /// the snippet can be shown.
    pub fn can_print(&self) -> (b: bool)
        ensures
            b == self@.in_source(),
    {
        self.range.start <= byte_length(self.source.source.as_str())
    }

    /// Whether the range of the snippet begins before the greatest offset
    /// that a machine word can hold.
    pub fn starts_below_limit(&self) -> (b: bool)
        ensures
            b == (self@.start < usize::MAX),
    {
        self.range.start < usize::MAX
    }

    /// The number of the line that holds the first byte of the range.
    pub fn get_line(&self) -> (n: usize)
        requires
            self@.in_source(),
        ensures
            n == self@.line().line,
            line_holding(lines_of(self@.source), 0, self@.start as int) is Some,
    {
        let _ = byte_length(self.source.source.as_str());
        proof {
            lemma_line_of_offset(self@.source, self@.start as int);
        }
        match self.source.get_line_at(self.range.start) {
            Some(line) => line.line(),
            None => 0,
        }
    }

    /// The width of the column of line numbers.
    fn get_width(&self) -> (n: usize)
        ensures
            n == self@.width(),
    {
        let lines = self.source.get_lines();
        let digits = decimal_string(lines.len());
        let n = digits.as_str().unicode_len();
        if n < 3 {
            3
        } else {
            n
        }
    }

    /// The snippet as text: the line of the source, the underline with the
    /// hint, and the message.
    pub fn get_print(&self) -> (s: String)
        requires
            self@.in_source(),
            self@.start < usize::MAX,
        ensures
            s@ == self@.rendered(),
    {
        let _ = byte_length(self.source.source.as_str());
        proof {
            lemma_line_of_offset(self@.source, self@.start as int);
        }
        let line = match self.source.get_line_at(self.range.start) {
            Some(line) => line,
            None => crate::util::source::SourceLine::new(0, 0, String::new()),
        };
        let longest = self.get_width();
        let charset = Charset::defaults();
        let line_num = SizedPadding::new(decimal_string(line.line()), charset, longest);
        let spaces = line.spaces_until(self.range.start..self.range.end);
        let count = less(self.range.end, self.range.start);
        let shown = line.trim();

        let mut out = line_num.to_string();
        out.append(" | ");
        out.append(shown.source());
        assert(out@ =~= self@.source_row());
        out.append("\n");
        let ghost first = out@;
        out.append(repeat_char(charset.space, longest).as_str());
        out.append(" |");
        out.append(repeat_char(charset.space, spaces).as_str());
        out.append(repeat_char(charset.underline, count).as_str());
        out.append(" ");
        out.append(self.inline.as_str());
        assert(out@ =~= first + self@.underline_row());
        out.append("\n");
        let ghost second = out@;
        out.append(SizedPadding::new("Err".to_string(), charset, longest).to_string().as_str());
        out.append(" | ---> ");
        out.append(self.message.as_str());
        assert(out@ =~= second + self@.message_row());
        assert(out@ =~= self@.rendered());
        out
    }
}

/// The number of line feeds in `s` from the place `i` on that stand before
/// the byte offset `o`.
pub open spec fn feeds_before(s: Seq<char>, i: int, o: int) -> nat
    decreases crate::lexer::rules::left(s, i),
{
    if !(0 <= i < s.len()) {
        0
    } else if s[i] == '\n' && offset(s, i) < o {
        1 + feeds_before(s, i + 1, o)
    } else {
        feeds_before(s, i + 1, o)
    }
}

/// No line feed stands before an offset from a place on whose own offset
/// is not before it.
proof fn lemma_no_feeds(s: Seq<char>, i: int, o: int)
    requires
        0 <= i <= s.len(),
        o <= offset(s, i),
    ensures
        feeds_before(s, i, o) == 0,
    decreases s.len() - i,
{
    if i < s.len() {
        crate::lexer::rules::lemma_offset_monotonic(s, i, i + 1);
        lemma_no_feeds(s, i + 1, o);
    }
}

/// The line feeds before an offset from a place on, over a stretch that
/// holds no line feed, are those from the end of the stretch on.
proof fn lemma_feeds_skip(s: Seq<char>, i: int, n: int, o: int)
    requires
        0 <= i <= i + n <= s.len(),
        forall|k: int| i <= k < i + n ==> (#[trigger] s[k]) != '\n',
    ensures
        feeds_before(s, i, o) == feeds_before(s, i + n, o),
    decreases n,
{
    if n > 0 {
        lemma_feeds_skip(s, i + 1, n - 1, o);
    }
}

/// Among the lines of a text from a place on, the line that holds a byte
/// offset at or behind that place exists, holds the offset, and has the
/// number of the first line and one more for each line feed that stands
/// before the offset.
pub proof fn lemma_line_from(s: Seq<char>, i: int, number: nat, o: int)
    requires
        0 <= i <= s.len(),
        offset(s, i) <= o <= byte_len(s) <= usize::MAX,
    ensures
        line_holding(lines_from(s, i, number), 0, o) is Some,
        line_holding(lines_from(s, i, number), 0, o)->0.holds(o),
        line_holding(lines_from(s, i, number), 0, o)->0.line == capped(
            number + feeds_before(s, i, o),
        ),
    decreases s.len() - i,
{
    let n = run(s, i, CharClass::InLine) as int;
    lemma_run(s, i, CharClass::InLine);
    let all = lines_from(s, i, number);
    let first = all[0];
    crate::lexer::rules::lemma_offset_monotonic(s, i, i + n);
    crate::lexer::rules::lemma_offset_monotonic(s, i + n, s.len() as int);
    assert(s.take(s.len() as int) =~= s);
    assert(s.take(i + n) =~= s.take(i) + s.subrange(i, i + n));
    crate::text::lemma_encode_concat(s.take(i), s.subrange(i, i + n));
    assert(first.offset + first.len == offset(s, i + n));
    lemma_feeds_skip(s, i, n, o);
    if o <= offset(s, i + n) {
        lemma_no_feeds(s, i + n, o);
        assert(first.holds(o));
    } else {
        assert(i + n < s.len());
        crate::text::lemma_byte_len_step(s, i + n);
        crate::lexer::rules::lemma_offset_monotonic(s, i + n, i + n + 1);
        let rest = lines_from(s, i + n + 1, number + 1);
        lemma_line_from(s, i + n + 1, number + 1, o);
        assert(all =~= seq![first] + rest);
        lemma_line_holding_shift(first, rest, 0, o);
        assert(!first.holds(o));
        assert(line_holding(all, 0, o) == line_holding(all, 1, o));
    }
}

/// Looking for a line from the place `k + 1` on among lines with one more
/// line in front is looking from the place `k` on among the lines without
/// it.
proof fn lemma_line_holding_shift(
    first: SourceLineView,
    rest: Seq<SourceLineView>,
    k: int,
    o: int,
)
    requires
        0 <= k,
    ensures
        line_holding(seq![first] + rest, k + 1, o) == line_holding(rest, k, o),
    decreases rest.len() - k,
{
    let all = seq![first] + rest;
    if k < rest.len() {
        assert(all[k + 1] == rest[k]);
        lemma_line_holding_shift(first, rest, k + 1, o);
    }
}

/// Every byte offset within a source lies on a line, and the number of
/// that line is one more than the number of line feeds before the offset.
pub proof fn lemma_line_of_offset(s: Seq<char>, o: int)
    requires
        0 <= o <= byte_len(s) <= usize::MAX,
    ensures
        line_holding(lines_of(s), 0, o) is Some,
        line_holding(lines_of(s), 0, o)->0.holds(o),
        line_holding(lines_of(s), 0, o)->0.line == capped(1 + feeds_before(s, 0, o)),
{
    assert(s.take(0) =~= Seq::<char>::empty());
    assert(vstd::utf8::encode_utf8(Seq::<char>::empty()) =~= Seq::<u8>::empty());
    lemma_line_from(s, 0, 1, o);
}

/// The underline of a snippet has one character for each byte of its
/// range, and the line number that the snippet shows is that of the line
/// that holds the first byte of the range: one more than the number of line
/// feeds before that byte.
pub proof fn lemma_snippet_underline(v: SnippetView)
    requires
        v.in_source(),
        v.start <= v.end,
        byte_len(v.source) <= usize::MAX,
    ensures
        v.underline().len() == v.end - v.start,
        forall|k: int| 0 <= k < v.underline().len() ==> v.underline()[k] == '~',
        v.line().holds(v.start as int),
        v.line().line == capped(1 + feeds_before(v.source, 0, v.start as int)),
{
    lemma_line_of_offset(v.source, v.start as int);
}


/// The values of the snippets of `snippets`, in order.
pub open spec fn snippet_views(snippets: Seq<Snippet>) -> Seq<SnippetView> {
    snippets.map_values(|x: Snippet| x@)
}

/// A diagnostic: what went wrong, in which source, and the places of the
/// source that show it.
#[derive(Debug)]
pub struct Report {
    pub code: u64,
    pub message: String,
    pub name: String,
    pub source: SourceBuffer,
    pub snippets: Vec<Snippet>,
    pub kind: ReportKind,
}

/// The mathematical value of a [`Report`].
pub ghost struct ReportView {
    pub code: u64,
    pub message: Seq<char>,
    pub name: Seq<char>,
    pub source: Seq<char>,
    pub snippets: Seq<SnippetView>,
    pub kind: ReportKind,
}

impl View for Report {
    type V = ReportView;

    open spec fn view(&self) -> ReportView {
        ReportView {
            code: self.code,
            message: self.message@,
            name: self.name@,
            source: self.source.source@,
            snippets: snippet_views(self.snippets@),
            kind: self.kind,
        }
    }
}

impl ReportView {
    /// The width of the column of line numbers.
    pub open spec fn width(self) -> nat {
        gutter(lines_of(self.source).len())
    }

    /// Whether every snippet of the report can be shown.
    pub open spec fn printable(self) -> bool {
        forall|k: int|
            0 <= k < self.snippets.len() ==> (#[trigger] self.snippets[k]).in_source()
                && self.snippets[k].start < usize::MAX
    }

    /// The heading of the report: its kind and message, the name of the
    /// source, and an empty row.
    pub open spec fn heading(self) -> Seq<char> {
        self.kind.name() + "! "@ + self.message + "\n"@ + repeated('-', self.width() + 2) + " ["@
            + self.name + "]"@ + "\n"@ + repeated(' ', self.width()) + " |"@ + "\n"@
    }

    /// What stands between two snippets: an empty row.
    pub open spec fn spacer(self) -> Seq<char> {
        "\n"@ + repeated(' ', self.width()) + " |\n"@
    }

    /// The report as text: the heading, and the snippets with an empty row
    /// between each two of them.
    pub open spec fn rendered(self) -> Seq<char> {
        self.heading() + joined(
            self.snippets.map_values(|v: SnippetView| v.rendered()),
            self.spacer(),
        ) + "\n"@
    }
}

impl Report {
    /// An error report without message and snippets, for an empty source
    /// named `unknown-name.surn`.
    pub fn new() -> (r: Self)
        ensures
            r@ == (ReportView {
                code: 0,
                message: Seq::empty(),
                name: "unknown-name.surn"@,
                source: Seq::empty(),
                snippets: Seq::empty(),
                kind: ReportKind::Error,
            }),
    {
        let r = Report {
            name: "unknown-name.surn".to_string(),
            code: 0,
            message: String::new(),
            source: SourceBuffer::empty(),
            snippets: Vec::new(),
            kind: ReportKind::Error,
        };
        assert(snippet_views(r.snippets@) =~= Seq::empty());
        r
    }

    pub fn set_code(self, code: u64) -> (r: Self)
        ensures
            r@ == (ReportView { code, ..self@ }),
    {
        let mut r = self;
        r.code = code;
        r
    }

    pub fn set_name(self, name: String) -> (r: Self)
        ensures
            r@ == (ReportView { name: name@, ..self@ }),
    {
        let mut r = self;
        r.name = name;
        r
    }

    pub fn set_message(self, message: String) -> (r: Self)
        ensures
            r@ == (ReportView { message: message@, ..self@ }),
    {
        let mut r = self;
        r.message = message;
        r
    }

    /// Sets the source of the report. Snippets made before keep the source
    /// that they were made for.
    pub fn set_source(self, source: SourceBuffer) -> (r: Self)
        ensures
            r@ == (ReportView { source: source.source@, ..self@ }),
    {
        let mut r = self;
        r.source = source;
        r
    }

    /// An empty snippet of the source of the report.
    pub fn empty_snippet(&self) -> (s: Snippet)
        ensures
            s@ == (SnippetView {
                message: Seq::empty(),
                inline: Seq::empty(),
                source: self@.source,
                multiline: false,
                start: 0,
                end: 1,
            }),
    {
        Snippet::empty().set_source(self.source.clone())
    }

    /// Appends a snippet of the source of the report for the bytes `range`,
    /// with the message `message` and the hint `inline`, or no hint.
    pub fn make_snippet(self, range: Range<usize>, message: String, inline: Option<String>) -> (r:
        Self)
        ensures
            r@ == (ReportView {
                snippets: self@.snippets.push(
                    SnippetView {
                        message: message@,
                        inline: match inline {
                            Some(s) => s@,
                            None => Seq::empty(),
                        },
                        source: self@.source,
                        multiline: false,
                        start: range.start,
                        end: range.end,
                    },
                ),
                ..self@
            }),
    {
        let snippet = self.empty_snippet().set_range(range).set_message(message).set_inline(
            match inline {
                Some(s) => s,
                None => String::new(),
            },
        );
        let mut r = self;
        let ghost before = snippet_views(r.snippets@);
        r.snippets.push(snippet);
        assert(snippet_views(r.snippets@) =~= before.push(snippet@));
        r
    }

    /// Appends `snippet`, with the source of the report as its source.
    pub fn add_snippet(self, snippet: Snippet) -> (r: Self)
        ensures
            r@ == (ReportView {
                snippets: self@.snippets.push(SnippetView { source: self@.source, ..snippet@ }),
                ..self@
            }),
    {
        let added = snippet.set_source(self.source.clone());
        let mut r = self;
        let ghost before = snippet_views(r.snippets@);
        r.snippets.push(added);
        assert(snippet_views(r.snippets@) =~= before.push(added@));
        r
    }

    /// The width of the column of line numbers.
    pub fn get_width(&self) -> (n: usize)
        ensures
            n == self@.width(),
            n >= 3,
    {
        let lines = self.source.get_lines();
        let digits = decimal_string(lines.len());
        let n = digits.as_str().unicode_len();
        if n < 3 {
            3
        } else {
            n
        }
    }

    /// Whether every snippet of the report can be shown.
    pub fn can_print(&self) -> (b: bool)
        ensures
            b == self@.printable(),
    {
        let mut k: usize = 0;
        while k < self.snippets.len()
            invariant
                k <= self.snippets.len(),
                forall|j: int|
                    0 <= j < k ==> (#[trigger] self@.snippets[j]).in_source()
                        && self@.snippets[j].start < usize::MAX,
            decreases self.snippets.len() - k,
        {
            let snippet = &self.snippets[k];
            assert(self@.snippets[k as int] == snippet@);
            if !(snippet.can_print() && snippet.starts_below_limit()) {
                return false;
            }
            k += 1;
        }
        true
    }

    /// The report as text, as it is written to the terminal.
    pub fn render(&self) -> (s: String)
        requires
            self@.printable(),
        ensures
            s@ == self@.rendered(),
    {
        let width = self.get_width();
        let charset = Charset::defaults();
        let mut out = self.kind.to_string();
        out.append("! ");
        out.append(self.message.as_str());
        out.append("\n");
        let ghost start = out@;
        out.append(repeat_char(charset.dash, width).as_str());
        out.append(repeat_char(charset.dash, 2).as_str());
        assert(out@ =~= start + repeated('-', (width + 2) as nat));
        out.append(" [");
        out.append(self.name.as_str());
        out.append("]");
        out.append("\n");
        out.append(repeat_char(charset.space, width).as_str());
        out.append(" |");
        out.append("\n");
        assert(out@ =~= self@.heading());
        let mut spacer = "\n".to_string();
        spacer.append(repeat_char(charset.space, width).as_str());
        spacer.append(" |\n");
        assert(spacer@ =~= self@.spacer());
        let ghost parts = self@.snippets.map_values(|v: SnippetView| v.rendered());
        let mut body = String::new();
        let mut k: usize = 0;
        while k < self.snippets.len()
            invariant
                k <= self.snippets.len(),
                self@.printable(),
                spacer@ == self@.spacer(),
                parts == self@.snippets.map_values(|v: SnippetView| v.rendered()),
                body@ == joined(parts.take(k as int), spacer@),
            decreases self.snippets.len() - k,
        {
            let snippet = &self.snippets[k];
            assert(self@.snippets[k as int] == snippet@);
            let text = snippet.get_print();
            proof {
                assert(parts.take(k + 1).drop_last() =~= parts.take(k as int));
                assert(parts.take(k + 1).last() == text@);
            }
            if k > 0 {
                body.append(spacer.as_str());
            }
            body.append(text.as_str());
            proof {
                if k == 0 {
                    assert(body@ =~= text@);
                }
            }
            k += 1;
        }
        assert(parts.take(k as int) =~= parts);
        out.append(body.as_str());
        out.append("\n");
        out
    }
}

} // verus!
