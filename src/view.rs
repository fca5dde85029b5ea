use vstd::prelude::*;
use vstd::string::*;

use crate::command::Op;
use crate::geometry::Size;
use crate::terminal::Terminal;

verus! {

/// Name of the program, shown in the welcome banner.
pub const NAME: &'static str = "hecto";

/// Version of the program, shown in the welcome banner.
pub const VERSION: &'static str = "0.1.0";

/// `"<name> editor -- version <version>"`.
pub open spec fn welcome_message() -> Seq<char> {
    NAME@ + " editor -- version "@ + VERSION@
}

/// Columns that centre a message of `len` characters in `width` columns;
/// zero when the message does not fit.
pub open spec fn banner_padding(width: int, len: int) -> int {
    if width >= len { (width - len) / 2 } else { 0 }
}

/// Spaces written between the `~` marker and the message: the padding less
/// the column of the marker, never below zero.
pub open spec fn banner_spaces(width: int, len: int) -> int {
    let p = banner_padding(width, len);
    if p >= 1 { p - 1 } else { 0 }
}

/// `~`, the spaces, then the message, cut to `width` characters.
pub open spec fn banner_line(width: int, message: Seq<char>) -> Seq<char> {
    let full = seq!['~'] + Seq::new(banner_spaces(width, message.len() as int) as nat, |i: int| ' ')
        + message;
    if full.len() <= width { full } else { full.take(width) }
}

/// The marker of a row that holds no text.
pub open spec fn empty_row() -> Seq<char> {
    seq!['~']
}

/// What row `row` shows, without its line break.
pub open spec fn row_text(size: Size, row: int, welcome: bool) -> Seq<char> {
    if welcome && row == size.height / 3 {
        banner_line(size.width as int, welcome_message())
    } else {
        empty_row()
    }
}

/// What row `row` prints: every row but the last ends with a line break.
pub open spec fn row_line(size: Size, row: int, welcome: bool) -> Seq<char> {
    if row + 1 < size.height {
        row_text(size, row, welcome) + seq!['\r', '\n']
    } else {
        row_text(size, row, welcome)
    }
}

/// The commands that draw the first `rows` rows: each is cleared, then printed.
pub open spec fn rows_ops(size: Size, welcome: bool, rows: nat) -> Seq<Op>
    decreases rows,
{
    if rows == 0 {
        Seq::empty()
    } else {
        rows_ops(size, welcome, (rows - 1) as nat) + seq![
            Op::ClearLine,
            Op::Print(row_line(size, rows - 1, welcome)),
        ]
    }
}

/// The commands that draw the whole viewport.
pub open spec fn view_ops(size: Size, welcome: bool) -> Seq<Op> {
    rows_ops(size, welcome, size.height as nat)
}

/// Composes the welcome banner for a screen `width` columns wide: `~`, then
/// `(width - len) / 2 - 1` spaces (none when that is negative), then the
/// message, cut to `width` characters.
pub fn welcome_line(width: u16, message: &str) -> (r: String)
    ensures
        r@ == banner_line(width as int, message@),
{
    let len = message.unicode_len();
    let padding: usize = if width as usize >= len { (width as usize - len) / 2 } else { 0 };
    let spaces: usize = if padding >= 1 { padding - 1 } else { 0 };
    let mut line = String::from_str("~");
    proof {
        reveal_strlit("~");
        reveal_strlit(" ");
    }
    let ghost pad = Seq::new(spaces as nat, |i: int| ' ');
    let mut i: usize = 0;
    while i < spaces
        invariant
            i <= spaces,
            line@ == seq!['~'] + pad.take(i as int),
            " "@ == seq![' '],
            pad == Seq::new(spaces as nat, |i: int| ' '),
        decreases spaces - i,
    {
        line.append(" ");
        proof {
            assert(pad.take(i + 1) =~= pad.take(i as int) + seq![' ']);
        }
        i = i + 1;
    }
    proof {
        assert(pad.take(spaces as int) =~= pad);
    }
    line.append(message);
    let n = line.as_str().unicode_len();
    if n <= width as usize {
        line
    } else {
        let cut = line.as_str().substring_char(0, width as usize);
        proof {
            assert(cut@ =~= line@.take(width as int));
        }
        String::from_str(cut)
    }
}

/// The banner with this program's own message.
pub fn welcome(width: u16) -> (r: String)
    ensures
        r@ == banner_line(width as int, welcome_message()),
{
    let message = String::from_str(NAME).concat(" editor -- version ").concat(VERSION);
    welcome_line(width, message.as_str())
}

/// Draws every row of a viewport of `size` into `term`: each row is cleared
/// and then printed as an empty-row marker, or, when `welcome` holds, as the
/// banner on row `height / 3`; no line break follows the last row.
pub fn render(term: &mut Terminal, size: Size, welcome: bool)
    ensures
        final(term)@ == old(term)@ + view_ops(size, welcome),
{
    let mut row: u16 = 0;
    while row < size.height
        invariant
            row <= size.height,
            term@ == old(term)@ + rows_ops(size, welcome, row as nat),
        decreases size.height - row,
    {
        let mut text = if welcome && row == size.height / 3 {
            crate::view::welcome(size.width)
        } else {
            proof {
                reveal_strlit("~");
            }
            String::from_str("~")
        };
        if row + 1 < size.height {
            proof {
                reveal_strlit("\r\n");
            }
            text.append("\r\n");
        }
        assert(text@ =~= row_line(size, row as int, welcome));
        term.clear_line();
        term.print(text);
        proof {
            assert(rows_ops(size, welcome, (row + 1) as nat) == rows_ops(size, welcome, row as nat)
                + seq![Op::ClearLine, Op::Print(row_line(size, row as int, welcome))]);
            assert(term@ =~= old(term)@ + rows_ops(size, welcome, (row + 1) as nat));
        }
        row = row + 1;
    }
}

/// For a message of `L <= W` characters on a screen `W` columns wide, the
/// banner starts with `~`, then holds `(W - L) / 2 - 1` spaces (none when
/// that is negative), then the message; it is never longer than `W`, and the
/// message is cut only when it would not fit after the marker.
pub proof fn lemma_banner_shape(width: int, message: Seq<char>)
    requires
        1 <= width,
        message.len() <= width,
    ensures
        ({
            let line = banner_line(width, message);
            let spaces = banner_spaces(width, message.len() as int);
            &&& spaces == (if (width - message.len()) / 2 >= 1 { (width - message.len()) / 2 - 1 } else { 0 })
            &&& line.len() <= width
            &&& line[0] == '~'
            &&& 1 + spaces <= line.len()
            &&& forall|i: int| 1 <= i < 1 + spaces ==> line[i] == ' '
            &&& line.subrange(1 + spaces, line.len() as int) == message.take(line.len() - 1 - spaces)
            &&& (1 + spaces + message.len() <= width ==> line.len() == 1 + spaces + message.len())
            &&& ((width - message.len()) / 2 >= 1 ==> line.len() == 1 + spaces + message.len())
        }),
{
    let line = banner_line(width, message);
    let spaces = banner_spaces(width, message.len() as int);
    let full = seq!['~'] + Seq::new(spaces as nat, |i: int| ' ') + message;
    assert(line.subrange(1 + spaces, line.len() as int) =~= message.take(line.len() - 1 - spaces));
}

} // verus!
