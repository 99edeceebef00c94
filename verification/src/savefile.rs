//! The identity of a save file: a game name, a slot, and the path they give.

use crate::command_result::option_text;
use crate::text::{trim, trimmed};
use crate::AUTO_SAVE_SLOT;
use vstd::prelude::*;
use vstd::string::*;

verus! {

/// A save of one game in one slot. Only the derived file name has durable state.
#[derive(Debug)]
pub struct Savefile {
    pub game_name: Option<String>,
    pub slot: String,
}

/// The mathematical value of a [`Savefile`].
pub struct SavefileView {
    pub game_name: Option<Seq<char>>,
    pub slot: Seq<char>,
}

impl View for Savefile {
    type V = SavefileView;

    open spec fn view(&self) -> SavefileView {
        SavefileView {
            game_name: option_text(self.game_name),
            slot: self.slot@,
        }
    }
}

/// The slot that a request names: its text without surrounding whitespace, or
/// the autosave slot when nothing is left or nothing was given.
pub open spec fn slot_name(slot: Option<Seq<char>>) -> Seq<char> {
    match slot {
        Some(s) => if trimmed(s).len() > 0 {
            trimmed(s)
        } else {
            AUTO_SAVE_SLOT@
        },
        None => AUTO_SAVE_SLOT@,
    }
}

/// The file that holds the save of `game_name` in `slot`.
pub open spec fn save_path(game_name: Option<Seq<char>>, slot: Seq<char>) -> Seq<char> {
    match game_name {
        Some(g) => "saves/"@ + g + "_"@ + slot + ".qzl"@,
        None => "saves/"@ + slot + ".qzl"@,
    }
}

impl SavefileView {
    /// The file that holds this save.
    pub open spec fn filename(self) -> Seq<char> {
        save_path(self.game_name, self.slot)
    }
}

impl Clone for Savefile {
    fn clone(&self) -> (r: Savefile)
        ensures
            r@ == self@,
    {
        let game_name = match &self.game_name {
            Some(g) => Some(g.clone()),
            None => None,
        };
        Savefile { game_name, slot: self.slot.clone() }
    }
}

impl Savefile {
    /// The save of `game_name` in `slot`; an empty, blank or missing slot
    /// means the autosave slot.
    pub fn new(game_name: Option<String>, slot: Option<String>) -> (r: Savefile)
        ensures
            r@.game_name == option_text(game_name),
            r@.slot == slot_name(option_text(slot)),
    {
        let chosen = match &slot {
            Some(s) => {
                let t = trim(s.as_str());
                if t.is_empty() {
                    AUTO_SAVE_SLOT.to_owned()
                } else {
                    t.to_owned()
                }
            },
            None => AUTO_SAVE_SLOT.to_owned(),
        };
        Savefile { game_name, slot: chosen }
    }

    /// The path of the save file: `saves/{game_name}_{slot}.qzl`, or
    /// `saves/{slot}.qzl` without a game name.
    pub fn filename(&self) -> (r: String)
        ensures
            r@ == self@.filename(),
    {
        let mut path = "saves/".to_owned();
        match &self.game_name {
            Some(g) => {
                path.append(g.as_str());
                path.append("_");
            },
            None => {},
        }
        path.append(self.slot.as_str());
        path.append(".qzl");
        path
    }
}

} // verus!
