//! Board layout: classification of the 64 cells of the track.
//!
//! A cell's kind and display label are pure functions of its index; they
//! are recomputed on demand and never stored. The precedence of the rules
//! matters: the start cell wins over the setback rule (0 is a multiple of
//! 5), and the setback rule wins over the bonus rule (35 is a multiple of
//! both 5 and 7).

use vstd::prelude::*;
use crate::text::dec_of;
use crate::text::dec_string;
use crate::LAST_CELL;

verus! {

/// What a cell does to a player who lands on it.
#[derive(Clone, Copy, Debug, PartialEq, Eq, Structural)]
pub enum CellKind {
    /// Cell 0, where every player begins.
    Start,
    /// Cell 63; landing exactly here wins the game.
    End,
    /// A multiple of 5 (other than 0 and 63): the player moves back 2.
    Setback,
    /// A multiple of 7 that is not a multiple of 5 (and not 0 or 63):
    /// the player moves forward 2.
    Bonus,
    /// Any other cell: no effect.
    Normal,
}

/// The kind of the cell at `index`, by the precedence start, end,
/// setback, bonus, normal — first match wins.
pub open spec fn cell_kind(index: int) -> CellKind {
    if index == 0 {
        CellKind::Start
    } else if index == 63 {
        CellKind::End
    } else if index % 5 == 0 {
        CellKind::Setback
    } else if index % 7 == 0 {
        CellKind::Bonus
    } else {
        CellKind::Normal
    }
}

/// The label suffix that each kind of cell shows on the board.
pub open spec fn kind_suffix(kind: CellKind) -> Seq<char> {
    match kind {
        CellKind::Start => "-Inicio"@,
        CellKind::End => "-Fin"@,
        CellKind::Setback => "-Castigo"@,
        CellKind::Bonus => "-Suerte"@,
        CellKind::Normal => ""@,
    }
}

/// The display label of the cell at `index`: its number followed by the
/// suffix of its kind.
pub open spec fn cell_label(index: int) -> Seq<char> {
    dec_of(index) + kind_suffix(cell_kind(index))
}

/// Classifies the cell at `index`: its kind and its display label.
pub fn classify(index: i16) -> (r: (CellKind, String))
    requires
        0 <= index <= LAST_CELL,
    ensures
        r.0 == cell_kind(index as int),
        r.1@ == cell_label(index as int),
{
    let kind: CellKind = if index == 0 {
        CellKind::Start
    } else if index == 63 {
        CellKind::End
    } else if index % 5 == 0 {
        CellKind::Setback
    } else if index % 7 == 0 {
        CellKind::Bonus
    } else {
        CellKind::Normal
    };
    let mut label = dec_string(index);
    let suffix: &'static str = match kind {
        CellKind::Start => "-Inicio",
        CellKind::End => "-Fin",
        CellKind::Setback => "-Castigo",
        CellKind::Bonus => "-Suerte",
        CellKind::Normal => "",
    };
    label.append(suffix);
    (kind, label)
}

/// Every cell strictly between start and end whose index is divisible by
/// neither 5 nor 7 is a normal cell.
pub proof fn lemma_interior_cells_normal(index: int)
    requires
        1 <= index <= 62,
        index % 5 != 0,
        index % 7 != 0,
    ensures
        cell_kind(index) == CellKind::Normal,
{
}

/// The start cell wins over the setback rule: cell 0 is a multiple of 5,
/// yet it is classified `Start`, because the start rule is checked first.
pub proof fn lemma_start_precedes_setback()
    ensures
        0int % 5 == 0,
        cell_kind(0) == CellKind::Start,
{
}

/// The setback rule wins over the bonus rule: cell 35 is a multiple of
/// both 5 and 7, yet it is classified `Setback`.
pub proof fn lemma_setback_precedes_bonus()
    ensures
        35int % 5 == 0,
        35int % 7 == 0,
        cell_kind(35) == CellKind::Setback,
{
}

/// The end cell is classified `End` even though 63 is a multiple of 7.
pub proof fn lemma_end_precedes_bonus()
    ensures
        63int % 7 == 0,
        cell_kind(63) == CellKind::End,
{
}

/// Classification is a pure function of the index: any two results for
/// the same index are identical.
pub proof fn lemma_classify_deterministic(
    index: int,
    r1: (CellKind, Seq<char>),
    r2: (CellKind, Seq<char>),
)
    requires
        r1.0 == cell_kind(index) && r1.1 == cell_label(index),
        r2.0 == cell_kind(index) && r2.1 == cell_label(index),
    ensures
        r1 == r2,
{
}

} // verus!
