//! Putting a row of text on the screen at a column that may lie left of it:
//! the part left of column 0 is cut off, the rest keeps its columns.

use vstd::prelude::*;
use vstd::utf8::{decode_utf8, encode_utf8, is_char_boundary};
use vstd::string::is_ascii;
use vstd::string::StringSliceAdditionalSpecFns;
use vstd::string::StrSliceExecFns;

verus! {

broadcast use vstd::utf8::encode_utf8_decode_utf8;

/// One character to put on the screen at row `y`, column `x`, held as the
/// code point that the terminal library takes.
#[derive(Clone, Copy, Debug, PartialEq, Eq)]
pub struct Cell {
    pub y: i32,
    pub x: i32,
    pub ch: u32,
}

/// How many leading bytes of a row that starts at column `x` lie left of
/// column 0.
pub open spec fn clip_skip(x: int) -> int {
    if x < 0 {
        -x
    } else {
        0
    }
}

/// The column where the visible part of a row that starts at `x` begins.
pub open spec fn clip_col(x: int) -> int {
    if x < 0 {
        0
    } else {
        x
    }
}

/// More of the row lies left of the screen than the row has bytes: nothing is
/// shown and the row is reported as an error.
pub open spec fn clipped_away(s: &str, x: int) -> bool {
    x < 0 && -x > s.spec_bytes().len()
}

/// The characters of the row that are put on the screen: those that follow
/// the bytes cut off on the left.
pub open spec fn visible_part(s: &str, x: int) -> Seq<char> {
    decode_utf8(s.spec_bytes().subrange(clip_skip(x), s.spec_bytes().len() as int))
}

/// The inputs on which the row can be placed without a panic: the cut falls on
/// a character boundary, and the row is no longer than a `usize` can count.
pub open spec fn place_ok(s: &str, x: int) -> bool {
    &&& !clipped_away(s, x) && x < 0 ==> is_char_boundary(s.spec_bytes(), clip_skip(x))
    &&& s.spec_bytes().len() <= usize::MAX
}

/// How many of the visible characters get a cell: all of them, except that
/// the cells stop at the last column an `i32` can name.
pub open spec fn placed_len(s: &str, x: int) -> int {
    let n = visible_part(s, x).len() as int;
    let room = i32::MAX - clip_col(x) + 1;
    if n <= room {
        n
    } else {
        room
    }
}

/// The cells a visible row occupies: its visible characters one after the
/// other, from column `clip_col(x)` rightward, up to column `i32::MAX`.
pub open spec fn placed_cells(y: i32, x: int, s: &str) -> Seq<Cell> {
    let v = visible_part(s, x);
    let c = clip_col(x);
    Seq::new(placed_len(s, x) as nat, |k: int| Cell { y, x: (c + k) as i32, ch: v[k] as u32 })
}

/// Where the characters of `string` go when the row starts at `(y, x)`.
/// `None` (curses' `ERR`) when the whole row lies left of the screen;
/// otherwise the cells to put, in order. The caller puts them one by one and
/// stops at the first that the terminal refuses (see `row_next`).
pub fn place_text(y: i32, x: i32, string: &str) -> (r: Option<Vec<Cell>>)
    requires
        place_ok(string, x as int),
    ensures
        r is None <==> clipped_away(string, x as int),
        r matches Some(cells) ==> cells@ == placed_cells(y, x as int, string),
{
    let len = string.len();
    let rest: &str;
    let col: i32;
    if x < 0 {
        let neg: i64 = -(x as i64);
        if neg as u64 > len as u64 {
            assert(len == string.spec_bytes().len());
            return None;
        }
        let (_, tail) = string.split_at(neg as usize);
        rest = tail;
        col = 0;
    } else {
        rest = string;
        col = x;
    }
    proof {
        assert(rest.spec_bytes() =~= string.spec_bytes().subrange(
            clip_skip(x as int),
            string.spec_bytes().len() as int,
        ));
        assert(rest@ == decode_utf8(encode_utf8(rest@)));
    }
    let visible = rest.unicode_len();
    let room: usize = (i32::MAX - col) as usize + 1;
    let n = if visible <= room { visible } else { room };
    let mut cells: Vec<Cell> = Vec::new();
    let mut i: usize = 0;
    while i < n
        invariant
            n as int == placed_len(string, x as int),
            visible == rest@.len(),
            n <= visible,
            rest@ == visible_part(string, x as int),
            col as int == clip_col(x as int),
            col + n <= i32::MAX + 1,
            i <= n,
            cells@ == placed_cells(y, x as int, string).subrange(0, i as int),
        decreases n - i,
    {
        let ch = rest.get_char(i);
        let cell = Cell { y, x: col + i as i32, ch: ch as u32 };
        cells.push(cell);
        i = i + 1;
        assert(cells@ =~= placed_cells(y, x as int, string).subrange(0, i as int));
    }
    assert(cells@ =~= placed_cells(y, x as int, string));
    Some(cells)
}

/// What to do next while putting a row's cells on the screen.
#[derive(Clone, Copy, Debug, PartialEq, Eq)]
pub enum RowAction {
    /// Put this cell, and report whether the terminal refused it.
    Put(Cell),
    /// The row is done: `true` (curses' `OK`) when every cell was put,
    /// `false` (curses' `ERR`) when the terminal refused one.
    Finish(bool),
}

/// The next step in putting `cells`, after the first `done` of them were put
/// and, if `refused`, the one after them was refused by the terminal: the
/// row stops at the first refused cell and reports an error; otherwise the
/// next cell is put, until all are and the row reports success.
pub fn row_next(cells: &Vec<Cell>, done: usize, refused: bool) -> (a: RowAction)
    requires
        done <= cells@.len(),
        refused ==> done < cells@.len(),
    ensures
        refused ==> a == RowAction::Finish(false),
        !refused && done < cells@.len() ==> a == RowAction::Put(cells@[done as int]),
        !refused && done == cells@.len() ==> a == RowAction::Finish(true),
{
    if refused {
        RowAction::Finish(false)
    } else if done < cells.len() {
        RowAction::Put(cells[done])
    } else {
        RowAction::Finish(true)
    }
}

/// Placing a row that starts left of the screen is placing what is left of
/// it, once the bytes left of column 0 are cut off, at column 0.
pub proof fn lemma_cut_row_is_suffix_at_column_zero(y: i32, x: int, s: &str, suffix: &str)
    requires
        x < 0,
        !clipped_away(s, x),
        suffix.spec_bytes() == s.spec_bytes().subrange(-x, s.spec_bytes().len() as int),
    ensures
        !clipped_away(suffix, 0),
        placed_cells(y, x, s) == placed_cells(y, 0, suffix),
{
    assert(suffix.spec_bytes().subrange(0, suffix.spec_bytes().len() as int) =~= suffix.spec_bytes());
    assert(visible_part(suffix, 0) == visible_part(s, x));
    assert(placed_cells(y, x, s) =~= placed_cells(y, 0, suffix));
}

/// For a row of ASCII characters, the `k`-th cell put is the character the row
/// holds at that place, and it lands on the column it would have had if the
/// screen went on to the left: `x` plus its index in the row. Exactly the
/// characters at columns `0` to `i32::MAX` are put.
pub proof fn lemma_ascii_cells_keep_columns(y: i32, x: int, s: &str)
    requires
        is_ascii(s),
        i32::MIN <= x <= i32::MAX,
        !clipped_away(s, x),
        place_ok(s, x),
    ensures
        visible_part(s, x) == s@.subrange(clip_skip(x), s@.len() as int),
        placed_cells(y, x, s).len() == if s@.len() - clip_skip(x) <= i32::MAX - clip_col(x) + 1 {
            s@.len() - clip_skip(x)
        } else {
            i32::MAX - clip_col(x) + 1
        },
        forall|k: int|
            0 <= k < placed_cells(y, x, s).len() ==> {
                &&& #[trigger] placed_cells(y, x, s)[k].ch == s@[clip_skip(x) + k] as u32
                &&& placed_cells(y, x, s)[k].x == x + clip_skip(x) + k
                &&& placed_cells(y, x, s)[k].y == y
                &&& x + clip_skip(x) + k >= 0
            },
{
    let chars = s@;
    let skip = clip_skip(x);
    vstd::utf8::is_ascii_chars_encode_utf8(chars);
    let sub = chars.subrange(skip, chars.len() as int);
    vstd::utf8::is_ascii_chars_encode_utf8(sub);
    assert(encode_utf8(sub) =~= s.spec_bytes().subrange(skip, s.spec_bytes().len() as int));
    assert(s.spec_bytes() == encode_utf8(chars));
    assert(visible_part(s, x) == sub);
    assert(visible_part(s, x).len() == s@.len() - skip);
    assert(placed_cells(y, x, s).len() == placed_len(s, x));
    assert forall|k: int| 0 <= k < placed_cells(y, x, s).len() implies {
        &&& #[trigger] placed_cells(y, x, s)[k].ch == s@[clip_skip(x) + k] as u32
        &&& placed_cells(y, x, s)[k].x == x + clip_skip(x) + k
        &&& placed_cells(y, x, s)[k].y == y
        &&& x + clip_skip(x) + k >= 0
    } by {
        assert(0 <= clip_col(x) + k <= i32::MAX);
        assert(sub[k] == s@[skip + k]);
    }
}

/// A row is dropped with an error exactly when it ends left of the screen:
/// its start plus its length in bytes is below column 0. A row that ends at
/// column 0 still counts, with nothing in it to show.
pub proof fn lemma_clipped_away_exactly_left_of_screen(s: &str, x: int)
    ensures
        clipped_away(s, x) <==> x + s.spec_bytes().len() < 0,
        !clipped_away(s, x) && x + s.spec_bytes().len() == 0 ==> visible_part(s, x).len() == 0,
{
    if !clipped_away(s, x) && x + s.spec_bytes().len() == 0 {
        let b = s.spec_bytes();
        assert(b.subrange(clip_skip(x), b.len() as int) =~= Seq::<u8>::empty());
        assert(decode_utf8(Seq::<u8>::empty()) =~= Seq::<char>::empty());
    }
}

} // verus!

verus! {

/// A row of text to put on the screen with its first character at row `y`,
/// column `x` (which may lie off the screen; see `place_text`).
#[derive(Clone, Copy, Debug, PartialEq, Eq)]
pub struct DrawOp {
    pub y: i32,
    pub x: i32,
    pub text: &'static str,
}

/// The row `text` put at `(y, x)`.
pub open spec fn op(y: int, x: int, text: &'static str) -> DrawOp {
    DrawOp { y: y as i32, x: x as i32, text }
}

} // verus!
