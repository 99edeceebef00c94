//! The identity of the game to run: a display name and a path.

use crate::command_result::option_text;
use crate::text::{contains_char, contains_text, starts_with};
use crate::{Error, ErrorView};
use vstd::prelude::*;
use vstd::string::*;

verus! {

/// A game file: the name to show and the path to hand to the interpreter.
#[derive(Debug)]
pub struct Gamefile {
    pub name: String,
    pub path: String,
}

/// The mathematical value of a [`Gamefile`].
pub struct GamefileView {
    pub name: Seq<char>,
    pub path: Seq<char>,
}

impl View for Gamefile {
    type V = GamefileView;

    open spec fn view(&self) -> GamefileView {
        GamefileView { name: self.name@, path: self.path@ }
    }
}

impl DeepView for Gamefile {
    type V = GamefileView;

    open spec fn deep_view(&self) -> GamefileView {
        self@
    }
}

impl Clone for Gamefile {
    fn clone(&self) -> (r: Gamefile)
        ensures
            r@ == self@,
    {
        Gamefile { name: self.name.clone(), path: self.path.clone() }
    }
}

/// Whether `input` is written as a path: it holds a slash or a backslash.
pub open spec fn is_path(input: Seq<char>) -> bool {
    input.contains('/') || input.contains('\\')
}

/// The game that a path stands for: the path itself, named by its final
/// component where it has one and by the whole input where it has none.
pub open spec fn game_at(input: Seq<char>, file_name: Option<Seq<char>>) -> GamefileView {
    GamefileView {
        name: match file_name {
            Some(n) => n,
            None => input,
        },
        path: input,
    }
}

/// The games of `listing` whose names begin with `input`, in listing order.
pub open spec fn candidates(listing: Seq<GamefileView>, input: Seq<char>) -> Seq<GamefileView> {
    listing.filter(|g: GamefileView| input.is_prefix_of(g.name))
}

/// The outcome of looking `input` up in `listing`: the one game whose name it
/// begins, or the reason why there is none.
pub open spec fn lookup_game(listing: Seq<GamefileView>, input: Seq<char>) -> Result<
    GamefileView,
    ErrorView,
> {
    let found = candidates(listing, input);
    if found.len() == 0 {
        Err(ErrorView::GameNotFound(input))
    } else if found.len() == 1 {
        Ok(found[0])
    } else {
        Err(ErrorView::MultipleGamesFound(input, found.map_values(|g: GamefileView| g.name)))
    }
}

/// The final component of `path` as `std::path::Path::file_name` reports it,
/// where it is valid Unicode. Which piece of the path that is depends on the
/// platform; on every platform a component is a piece of the path between
/// separators and is not empty.
#[verifier::external_body]
fn final_component(path: &str) -> (r: Option<String>)
    ensures
        r matches Some(name) ==> name@.len() > 0 && contains_text(path@, name@),
{
    match std::path::Path::new(path).file_name() {
        Some(name) => match name.to_str() {
            Some(text) => Some(text.to_string()),
            None => None,
        },
        None => None,
    }
}

impl Gamefile {
    /// The game called `name` at `path`.
    pub fn new(name: String, path: String) -> (r: Gamefile)
        ensures
            r@ == (GamefileView { name: name@, path: path@ }),
    {
        Gamefile { name, path }
    }

    /// The game that the path `input` stands for, given the final component
    /// that the platform sees in it.
    pub fn from_path(input: &str, file_name: Option<String>) -> (r: Gamefile)
        ensures
            r@ == game_at(input@, option_text(file_name)),
    {
        let name = match file_name {
            Some(n) => n,
            None => input.to_owned(),
        };
        Gamefile { name, path: input.to_owned() }
    }

    /// Resolves what the user typed to one game. An input with a slash or a
    /// backslash is a path and is taken as it stands, named by its final
    /// component, a piece of the path, or by the whole of it. Any other input is the
    /// beginning of a name, looked up among `listing`, the regular files of
    /// the games directory: exactly one of them must match.
    pub fn from_input(input: &str, listing: &Vec<Gamefile>) -> (r: Result<Gamefile, Error>)
        ensures
            is_path(input@) ==> r is Ok && r->Ok_0@.path == input@ && (r->Ok_0@.name == input@ || (
            r->Ok_0@.name.len() > 0 && contains_text(input@, r->Ok_0@.name))),
            !is_path(input@) ==> (match r {
                Ok(g) => Ok(g@),
                Err(e) => Err(e@),
            }) == lookup_game(listing.deep_view(), input@),
    {
        if contains_char(input, '/') || contains_char(input, '\\') {
            let file_name = final_component(input);
            let ghost seen = option_text(file_name);
            let game = Gamefile::from_path(input, file_name);
            assert(game@ == game_at(input@, seen));
            return Ok(game);
        }
        let ghost all = listing.deep_view();
        let ghost pred = |g: GamefileView| input@.is_prefix_of(g.name);
        let mut found: Vec<Gamefile> = Vec::new();
        let mut i: usize = 0;
        proof {
            reveal(Seq::filter);
            assert(all.take(0) =~= Seq::<GamefileView>::empty());
            assert(found.deep_view() =~= Seq::<GamefileView>::empty());
        }
        while i < listing.len()
            invariant
                i <= listing.len(),
                all == listing.deep_view(),
                pred == (|g: GamefileView| input@.is_prefix_of(g.name)),
                found.deep_view() == all.take(i as int).filter(pred),
            decreases listing.len() - i,
        {
            let ghost before = found.deep_view();
            proof {
                reveal(Seq::filter);
                assert(all.take(i + 1).drop_last() =~= all.take(i as int));
                assert(all.take(i + 1).last() == listing@[i as int]@);
            }
            if starts_with(listing[i].name.as_str(), input) {
                found.push(listing[i].clone());
                assert(found.deep_view() =~= before.push(listing@[i as int]@));
            }
            i += 1;
        }
        proof {
            assert(all.take(listing.len() as int) =~= all);
        }
        if found.len() == 0 {
            Err(Error::GameNotFound(input.to_owned()))
        } else if found.len() == 1 {
            let game = found[0].clone();
            Ok(game)
        } else {
            let mut names: Vec<String> = Vec::new();
            let mut k: usize = 0;
            while k < found.len()
                invariant
                    k <= found.len(),
                    names@.len() == k,
                    forall|j: int| 0 <= j < k ==> (#[trigger] names@[j])@ == found@[j]@.name,
                decreases found.len() - k,
            {
                names.push(found[k].name.clone());
                k += 1;
            }
            proof {
                assert(names.deep_view() =~= found.deep_view().map_values(
                    |g: GamefileView| g.name,
                ));
            }
            Err(Error::MultipleGamesFound(input.to_owned(), names))
        }
    }

    /// The path to hand to the interpreter: the canonical form of the game's
    /// path where the file system gave one, else the path as it stands.
    pub fn full_path(&self, canonical: Option<String>) -> (r: String)
        ensures
            r@ == (match canonical {
                Some(c) => c@,
                None => self.path@,
            }),
    {
        match canonical {
            Some(c) => c,
            None => self.path.clone(),
        }
    }
}

} // verus!
