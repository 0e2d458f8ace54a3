//! The log messages of the game, built exactly as the board shows them.
//!
//! Each message is specified as a sequence of characters over the player's
//! name and the numbers involved, and each builder is proved to return
//! precisely that sequence.

use vstd::prelude::*;
use crate::text::dec_of;
use crate::text::dec_string;

verus! {

/// Message reporting a roll that was accepted: the player moved.
pub open spec fn roll_message(name: Seq<char>, roll: int) -> Seq<char> {
    " El "@ + name + " acaba de sacar el numero "@ + dec_of(roll) + "."@
}

/// Message reporting a roll that would overshoot the final cell: the
/// player did not move and still needs `needed` cells to win.
pub open spec fn overshoot_message(name: Seq<char>, roll: int, needed: int) -> Seq<char> {
    " El "@ + name + " acaba de sacar el numero "@ + dec_of(roll) + ". Pero necesita un "@
        + dec_of(needed) + " para ganar."@
}

/// Victory message for the player who reached the final cell.
pub open spec fn win_message(name: Seq<char>) -> Seq<char> {
    "El jugador "@ + name + " ganó."@
}

/// Message reporting that the player landed on a setback cell and moved
/// back two cells.
pub open spec fn setback_message(name: Seq<char>) -> Seq<char> {
    " El "@ + name + " esta en un casillero de castigo. Retrocede 2 casilleros."@
}

/// Message reporting that the player landed on a bonus cell and moved
/// forward two cells.
pub open spec fn bonus_message(name: Seq<char>) -> Seq<char> {
    " El "@ + name + " esta en un casillero de castigo. Avanza 2 casilleros."@
}

/// Builds `roll_message`.
pub fn build_roll_message(name: &str, roll: i16) -> (r: String)
    requires
        0 <= roll,
    ensures
        r@ == roll_message(name@, roll as int),
{
    let mut s = String::from_str(" El ");
    s.append(name);
    s.append(" acaba de sacar el numero ");
    let num = dec_string(roll);
    s.append(num.as_str());
    s.append(".");
    s
}

/// Builds `overshoot_message`.
pub fn build_overshoot_message(name: &str, roll: i16, needed: i16) -> (r: String)
    requires
        0 <= roll,
        0 <= needed,
    ensures
        r@ == overshoot_message(name@, roll as int, needed as int),
{
    let mut s = String::from_str(" El ");
    s.append(name);
    s.append(" acaba de sacar el numero ");
    let num = dec_string(roll);
    s.append(num.as_str());
    s.append(". Pero necesita un ");
    let need = dec_string(needed);
    s.append(need.as_str());
    s.append(" para ganar.");
    s
}

/// Builds `win_message`.
pub fn build_win_message(name: &str) -> (r: String)
    ensures
        r@ == win_message(name@),
{
    let mut s = String::from_str("El jugador ");
    s.append(name);
    s.append(" ganó.");
    s
}

/// Builds `setback_message`.
pub fn build_setback_message(name: &str) -> (r: String)
    ensures
        r@ == setback_message(name@),
{
    let mut s = String::from_str(" El ");
    s.append(name);
    s.append(" esta en un casillero de castigo. Retrocede 2 casilleros.");
    s
}

/// Builds `bonus_message`.
pub fn build_bonus_message(name: &str) -> (r: String)
    ensures
        r@ == bonus_message(name@),
{
    let mut s = String::from_str(" El ");
    s.append(name);
    s.append(" esta en un casillero de castigo. Avanza 2 casilleros.");
    s
}

} // verus!
