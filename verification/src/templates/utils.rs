//! Texts shared by the pages: the questions asked for status transitions, the
//! menu entries, and the classes of the state tiles.
use vstd::prelude::*;
use vstd::string::StringExecFns;
use crate::models::statuts::{ask_text, State};

verus! {

/// The question asked to the user to record `value` (`"Inconnue"` for an
/// unknown transition).
pub fn ask_transition(value: &str) -> (r: String)
    ensures
        r@ == ask_text(value@),
{
    String::from_str(State::ask(value))
}

/// The entries of the menu.
#[derive(PartialEq, Eq, Structural)]
pub enum MenuConstants {
    Factures,
    Clients,
    Evenements,
    Help,
    Admin,
}

/// The color of the tile of a state rank.
pub open spec fn tile_color(value: u8) -> Seq<char> {
    if value == 1 {
        "red"@
    } else if value == 2 {
        "orange"@
    } else if value == 3 {
        "yellow"@
    } else if value == 4 {
        "pink"@
    } else if value == 5 {
        "blue"@
    } else if value == 6 {
        "lightgreen"@
    } else if value == 7 {
        "darkgreen"@
    } else if value == 8 {
        "cyan"@
    } else {
        "red,"@
    }
}

/// The text color on the tile of a state rank.
pub open spec fn tile_text_color(value: u8) -> Seq<char> {
    if value == 1 || value == 4 || value == 5 || value == 6 || value == 7 {
        "white"@
    } else {
        "black"@
    }
}

/// The classes of the tile that shows a state rank; a tile followed by a label
/// gets a right margin.
pub open spec fn tile_class(value: u8, has_label: bool) -> Seq<char> {
    "state-tile state-color-"@ + tile_color(value) + " text-"@ + tile_text_color(value) + " "@ + (
    if has_label {
        "mr-1"@
    } else {
        ""@
    })
}

/// The classes of the tile that shows a state rank.
pub fn state_tile_class(value: u8, has_label: bool) -> (r: String)
    ensures
        r@ == tile_class(value, has_label),
{
    let color = if value == 1 {
        "red"
    } else if value == 2 {
        "orange"
    } else if value == 3 {
        "yellow"
    } else if value == 4 {
        "pink"
    } else if value == 5 {
        "blue"
    } else if value == 6 {
        "lightgreen"
    } else if value == 7 {
        "darkgreen"
    } else if value == 8 {
        "cyan"
    } else {
        "red,"
    };
    let text_color = if value == 1 || value == 4 || value == 5 || value == 6 || value == 7 {
        "white"
    } else {
        "black"
    };
    let spacing = if has_label {
        "mr-1"
    } else {
        ""
    };
    String::from_str("state-tile state-color-").concat(color).concat(" text-").concat(
        text_color,
    ).concat(" ").concat(spacing)
}

} // verus!
