//! Squares of the board and their textual names.
//!
//! A square is named by a file letter and a rank digit. Files run `A` to `H`
//! from the left. Ranks are inverted against rendered rows: the top row shows
//! rank 8, the bottom row rank 1.

use vstd::prelude::*;

verus! {

/// One of the 64 cells of the board.
///
/// `col` counts files from the left (0 is file A), `row` counts rendered
/// rows from the top (0 is rank 8, 7 is rank 1).
#[derive(Clone, Copy, Debug, PartialEq, Eq, Structural)]
pub struct Square {
    pub col: usize,
    pub row: usize,
}

impl Square {
    /// Both coordinates lie on the board.
    pub open spec fn wf(self) -> bool {
        self.col < 8 && self.row < 8
    }

    /// The canonical name of this square.
    pub open spec fn notation(self) -> Seq<char> {
        notation_of(self.col as int, self.row as int)
    }
}

/// Why a text does not name a square.
#[derive(Clone, Copy, Debug, PartialEq, Eq, Structural)]
pub enum NotationError {
    /// The text has no file letter in `A`..`H` (either case) at its start,
    /// or no rank digit in `1`..`8` right after it.
    InvalidNotation,
}

/// The upper-case letter of file `col`.
pub open spec fn file_char(col: int) -> char {
    ('A' as int + col) as char
}

/// The digit of the rank shown in rendered row `row`.
pub open spec fn rank_char(row: int) -> char {
    ('0' as int + (8 - row)) as char
}

/// The canonical two-character name of the square at (`col`, `row`).
pub open spec fn notation_of(col: int, row: int) -> Seq<char> {
    seq![file_char(col), rank_char(row)]
}

/// The column that a file letter stands for; letters of either case count.
pub open spec fn file_col(c: char) -> Option<int> {
    if 'A' as int <= c as int <= 'H' as int {
        Some(c as int - 'A' as int)
    } else if 'a' as int <= c as int <= 'h' as int {
        Some(c as int - 'a' as int)
    } else {
        None
    }
}

/// The rendered row that a rank digit stands for.
pub open spec fn rank_row(c: char) -> Option<int> {
    if '1' as int <= c as int <= '8' as int {
        Some(8 - (c as int - '0' as int))
    } else {
        None
    }
}

/// The (column, row) that `text` names, if it names a square.
///
/// Only the first two characters are read: a file letter, then a rank digit.
pub open spec fn parse_notation(text: Seq<char>) -> Option<(int, int)> {
    if text.len() < 2 {
        None
    } else {
        match (file_col(text[0]), rank_row(text[1])) {
            (Some(col), Some(row)) => Some((col, row)),
            _ => None,
        }
    }
}

/// `String::push` of the standard library: the character is appended to the
/// end of the string and nothing else changes.
pub assume_specification[ String::push ](s: &mut String, c: char)
    ensures
        final(s)@ == old(s)@.push(c),
;

/// Names the square at column `x`, row `y`: the file letter, then the rank digit.
pub fn coordinates_to_string(x: usize, y: usize) -> (name: String)
    requires
        x < 8,
        y < 8,
    ensures
        name@ == notation_of(x as int, y as int),
{
    let file: u8 = 65u8 + (x as u8);
    let rank: u8 = 48u8 + (8u8 - (y as u8));
    let mut name = String::new();
    name.push(file as char);
    name.push(rank as char);
    name
}

/// Reads the square that `position` names and returns its (column, row).
///
/// The file letter may be of either case. Characters after the rank digit
/// are not read.
pub fn string_to_coordinates(position: &str) -> (coordinates: Result<(usize, usize), NotationError>)
    ensures
        match parse_notation(position@) {
            Some((col, row)) => coordinates == Ok::<(usize, usize), NotationError>(
                (col as usize, row as usize),
            ),
            None => coordinates == Err::<(usize, usize), NotationError>(
                NotationError::InvalidNotation,
            ),
        },
        coordinates matches Ok((col, row)) ==> col < 8 && row < 8,
{
    if position.unicode_len() < 2 {
        return Err(NotationError::InvalidNotation);
    }
    let file: u32 = position.get_char(0) as u32;
    let rank: u32 = position.get_char(1) as u32;
    let col: u32 = if 65 <= file && file <= 72 {
        file - 65
    } else if 97 <= file && file <= 104 {
        file - 97
    } else {
        return Err(NotationError::InvalidNotation);
    };
    if rank < 49 || rank > 56 {
        return Err(NotationError::InvalidNotation);
    }
    let row: u32 = 8 - (rank - 48);
    Ok((col as usize, row as usize))
}

/// Naming a square and reading the name back yields the same square.
pub proof fn lemma_notation_round_trip(col: int, row: int)
    requires
        0 <= col < 8,
        0 <= row < 8,
    ensures
        parse_notation(notation_of(col, row)) == Some((col, row)),
{
}

/// Distinct squares have distinct names.
pub proof fn lemma_notation_injective(a: Square, b: Square)
    requires
        a.wf(),
        b.wf(),
        a.notation() == b.notation(),
    ensures
        a == b,
{
    lemma_notation_round_trip(a.col as int, a.row as int);
    lemma_notation_round_trip(b.col as int, b.row as int);
}

/// A text that names a square names one on the board.
pub proof fn lemma_parse_on_board(text: Seq<char>)
    requires
        parse_notation(text) is Some,
    ensures
        0 <= parse_notation(text).unwrap().0 < 8,
        0 <= parse_notation(text).unwrap().1 < 8,
{
}

/// Whether `text` is exactly an upper-case file letter and a rank digit.
pub open spec fn is_canonical(text: Seq<char>) -> bool {
    &&& text.len() == 2
    &&& 'A' as int <= text[0] as int <= 'H' as int
    &&& '1' as int <= text[1] as int <= '8' as int
}

/// The names of the squares are the canonical texts, and reading a
/// canonical text and naming the square read yields the same text: squares
/// and canonical texts correspond one to one.
pub proof fn lemma_canonical_round_trip(text: Seq<char>)
    ensures
        is_canonical(text) <==> exists|col: int, row: int|
            0 <= col < 8 && 0 <= row < 8 && #[trigger] notation_of(col, row) == text,
        is_canonical(text) ==> parse_notation(text) is Some && notation_of(
            parse_notation(text).unwrap().0,
            parse_notation(text).unwrap().1,
        ) == text,
{
    if is_canonical(text) {
        let (col, row) = parse_notation(text).unwrap();
        assert(notation_of(col, row) =~= text);
    }
}

} // verus!
