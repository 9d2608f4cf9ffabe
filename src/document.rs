use vstd::prelude::*;
use vstd::string::StrSliceExecFns;

verus! {

/// Index of the first `'\n'` in `s`, or `s.len()` when there is none.
pub open spec fn first_newline(s: Seq<char>) -> nat
    decreases s.len(),
{
    if s.len() == 0 {
        0
    } else if s[0] == '\n' {
        0
    } else {
        1 + first_newline(s.drop_first())
    }
}

/// A line without its terminator: a `'\r'` right before the `'\n'` goes too.
pub open spec fn strip_cr(line: Seq<char>) -> Seq<char> {
    if line.len() > 0 && line.last() == '\r' {
        line.drop_last()
    } else {
        line
    }
}

/// The lines of a text: split at each `'\n'` (or `"\r\n"`), the terminators
/// dropped; a text that ends in a terminator has no empty line after it.
pub open spec fn lines_of(s: Seq<char>) -> Seq<Seq<char>>
    decreases s.len(),
{
    if s.len() == 0 {
        Seq::empty()
    } else {
        let k = first_newline(s);
        if k >= s.len() {
            seq![s]
        } else {
            seq![strip_cr(s.take(k as int))] + lines_of(s.skip(k as int + 1))
        }
    }
}

/// The text of line `row`, or `None` past the last line.
pub open spec fn line_at(lines: Seq<Seq<char>>, row: int) -> Option<Seq<char>> {
    if 0 <= row < lines.len() {
        Some(lines[row])
    } else {
        None
    }
}

/// Number of characters of line `row`; 0 for a row past the last line.
pub open spec fn width_of(lines: Seq<Seq<char>>, row: int) -> int {
    if 0 <= row < lines.len() {
        lines[row].len() as int
    } else {
        0
    }
}

/// Relies on `str::lines`: splits at `"\n"` and `"\r\n"`, drops those
/// terminators, and yields no empty line after a final terminator.
#[verifier::external_body]
fn split_lines(text: &str) -> (r: Vec<String>)
    ensures
        r@.map_values(|l: String| l@) == lines_of(text@),
{
    text.lines().map(String::from).collect()
}

/// A read-only buffer of text lines.
#[derive(Debug, Default)]
pub struct Document {
    pub rows: Vec<String>,
}

impl View for Document {
    type V = Seq<Seq<char>>;

    open spec fn view(&self) -> Seq<Seq<char>> {
        self.rows@.map_values(|l: String| l@)
    }
}

impl Document {
    /// A document with no lines.
    pub fn empty() -> (d: Document)
        ensures
            d@ == Seq::<Seq<char>>::empty(),
    {
        let d = Document { rows: Vec::new() };
        assert(d@ =~= Seq::<Seq<char>>::empty());
        d
    }

    /// The document holding the lines of `text`.
    pub fn from_text(text: &str) -> (d: Document)
        ensures
            d@ == lines_of(text@),
    {
        Document { rows: split_lines(text) }
    }

    /// The text of line `row`, if the document has it.
    pub fn row(&self, row: usize) -> (r: Option<&str>)
        ensures
            r matches Some(s) ==> line_at(self@, row as int) == Some(s@),
            r is None ==> line_at(self@, row as int) is None,
    {
        if row < self.rows.len() {
            Some(self.rows[row].as_str())
        } else {
            None
        }
    }

    /// The number of lines.
    pub fn len(&self) -> (n: usize)
        ensures
            n == self@.len(),
    {
        self.rows.len()
    }

    /// The number of characters of line `row`, 0 past the last line.
    pub fn width(&self, row: usize) -> (w: usize)
        ensures
            w == width_of(self@, row as int),
    {
        match self.row(row) {
            Some(line) => line.unicode_len(),
            None => 0,
        }
    }
}

} // verus!
