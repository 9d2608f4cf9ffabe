use vstd::prelude::*;
use vstd::string::{StrSliceExecFns, StringExecFns};

use crate::state::State;

verus! {

/// `n` spaces.
pub open spec fn spaces(n: int) -> Seq<char> {
    Seq::new(n as nat, |i: int| ' ')
}

/// `left` and `right` with spaces between them to fill `cols` characters;
/// no spaces when the two already fill it.
pub open spec fn padded(left: Seq<char>, right: Seq<char>, cols: int) -> Seq<char> {
    let gap = cols - left.len() - right.len();
    left + spaces(if gap > 0 { gap } else { 0 }) + right
}

/// The decimal digit `d`.
pub open spec fn digit_char(d: nat) -> char {
    if d == 0 { '0' }
    else if d == 1 { '1' }
    else if d == 2 { '2' }
    else if d == 3 { '3' }
    else if d == 4 { '4' }
    else if d == 5 { '5' }
    else if d == 6 { '6' }
    else if d == 7 { '7' }
    else if d == 8 { '8' }
    else { '9' }
}

/// The decimal numeral of `n`, without leading zeros.
pub open spec fn decimal(n: nat) -> Seq<char>
    decreases n,
{
    if n < 10 {
        seq![digit_char(n)]
    } else {
        decimal(n / 10).push(digit_char(n % 10))
    }
}

fn digit_str(d: usize) -> (r: &'static str)
    requires
        d < 10,
    ensures
        r@ == seq![digit_char(d as nat)],
{
    proof {
        reveal_strlit("0");
        reveal_strlit("1");
        reveal_strlit("2");
        reveal_strlit("3");
        reveal_strlit("4");
        reveal_strlit("5");
        reveal_strlit("6");
        reveal_strlit("7");
        reveal_strlit("8");
        reveal_strlit("9");
    }
    let r = if d == 0 { "0" }
    else if d == 1 { "1" }
    else if d == 2 { "2" }
    else if d == 3 { "3" }
    else if d == 4 { "4" }
    else if d == 5 { "5" }
    else if d == 6 { "6" }
    else if d == 7 { "7" }
    else if d == 8 { "8" }
    else { "9" };
    assert(r@ =~= seq![digit_char(d as nat)]);
    r
}

/// Appends the decimal numeral of `n` to `s`.
pub fn push_decimal(s: &mut String, n: usize)
    ensures
        final(s)@ == old(s)@ + decimal(n as nat),
    decreases n,
{
    if n >= 10 {
        push_decimal(s, n / 10);
    }
    s.append(digit_str(n % 10));
    proof {
        if n >= 10 {
            assert(old(s)@ + decimal(n as nat) =~= old(s)@ + decimal((n / 10) as nat) + seq![
                digit_char((n % 10) as nat),
            ]);
        }
    }
}

/// `left`, then spaces, then `right`, filling `cols` characters where they
/// leave room.
pub fn pad_between(left: &str, right: &str, cols: u16) -> (r: String)
    ensures
        r@ == padded(left@, right@, cols as int),
{
    let used = left.unicode_len() as u128 + right.unicode_len() as u128;
    let gap: usize = if used < cols as u128 {
        (cols as u128 - used) as usize
    } else {
        0
    };
    let mut s = String::from_str(left);
    let mut i: usize = 0;
    while i < gap
        invariant
            i <= gap,
            s@ == left@ + spaces(i as int),
        decreases gap - i,
    {
        proof {
            reveal_strlit(" ");
        }
        s.append(" ");
        assert(" "@ =~= seq![' ']);
        assert(spaces(i + 1) =~= spaces(i as int) + seq![' ']);
        i = i + 1;
        assert(s@ =~= left@ + spaces(i as int));
    }
    s.append(right);
    assert(s@ =~= padded(left@, right@, cols as int));
    s
}

/// The status line's text: `[mode] file` at the left, `row:col` at the
/// right, spaces between them to fill `cols` characters.
pub open spec fn status_text(
    mode: Seq<char>,
    filename: Seq<char>,
    row: usize,
    col: usize,
    cols: int,
) -> Seq<char> {
    padded(
        seq!['['] + mode + seq![']', ' '] + filename,
        decimal(row as nat) + seq![':'] + decimal(col as nat),
        cols,
    )
}

/// The status line for a mode name, a file name and a cursor position.
pub fn status_line(mode: &str, filename: &str, row: usize, col: usize, cols: u16) -> (r: String)
    ensures
        r@ == status_text(mode@, filename@, row, col, cols as int),
{
    proof {
        reveal_strlit("[");
        reveal_strlit("] ");
        reveal_strlit(":");
    }
    let mut left = String::from_str("[");
    left.append(mode);
    left.append("] ");
    left.append(filename);
    let mut right = String::new();
    push_decimal(&mut right, row);
    right.append(":");
    push_decimal(&mut right, col);
    assert(left@ =~= seq!['['] + mode@ + seq![']', ' '] + filename@);
    assert(right@ =~= decimal(row as nat) + seq![':'] + decimal(col as nat));
    pad_between(left.as_str(), right.as_str(), cols)
}

/// A status line that shows a mode name and a file name.
#[derive(Debug)]
pub struct StatusBar {
    pub filename: String,
    pub mode: &'static str,
}

impl StatusBar {
    pub fn new(filename: String, mode: &'static str) -> (b: StatusBar)
        ensures
            b.filename == filename,
            b.mode == mode,
    {
        StatusBar { filename, mode }
    }

    /// Takes the name of the state's active mode.
    pub fn update(&mut self, state: &State)
        ensures
            final(self).mode@ == crate::mode::mode_name(state@.mode),
            final(self).filename == old(self).filename,
    {
        self.mode = state.get_mode().display();
    }

    /// The bar's text, `mode file`, filled with spaces to `cols` characters.
    pub fn text(&self, cols: u16) -> (r: String)
        ensures
            r@ == padded(self.mode@ + seq![' '] + self.filename@, Seq::empty(), cols as int),
    {
        proof {
            reveal_strlit(" ");
            reveal_strlit("");
        }
        let mut left = String::from_str(self.mode);
        left.append(" ");
        left.append(self.filename.as_str());
        assert(left@ =~= self.mode@ + seq![' '] + self.filename@);
        pad_between(left.as_str(), "", cols)
    }
}

} // verus!
