use vstd::prelude::*;

use crate::error::CommandError;
use crate::text::same_text;

verus! {

/// The games that the launcher knows how to install and run.
#[derive(Clone, Copy, Debug, PartialEq, Eq, Structural)]
pub enum SupportedGame {
    Jak1,
    Jak2,
    Jak3,
    JakX,
}

/// The name under which a game is addressed by the front end.
pub open spec fn game_name(g: SupportedGame) -> Seq<char> {
    match g {
        SupportedGame::Jak1 => seq!['j', 'a', 'k', '1'],
        SupportedGame::Jak2 => seq!['j', 'a', 'k', '2'],
        SupportedGame::Jak3 => seq!['j', 'a', 'k', '3'],
        SupportedGame::JakX => seq!['j', 'a', 'k', 'x'],
    }
}

/// The game addressed by `name`, if any.
pub open spec fn game_named(name: Seq<char>) -> Option<SupportedGame> {
    if name == game_name(SupportedGame::Jak1) {
        Some(SupportedGame::Jak1)
    } else if name == game_name(SupportedGame::Jak2) {
        Some(SupportedGame::Jak2)
    } else if name == game_name(SupportedGame::Jak3) {
        Some(SupportedGame::Jak3)
    } else if name == game_name(SupportedGame::JakX) {
        Some(SupportedGame::JakX)
    } else {
        None
    }
}

/// Bytes in a gibibyte.
pub const GIB: u64 = 1024 * 1024 * 1024;

/// Free bytes a drive needs before a fresh install of `g` is attempted.
pub open spec fn fresh_install_threshold(g: SupportedGame) -> nat {
    match g {
        SupportedGame::Jak1 => 4 * GIB as nat,
        _ => 11 * GIB as nat,
    }
}

impl SupportedGame {
    /// Looks a game up by its front-end name.
    pub fn from_name(name: &str) -> (r: Option<SupportedGame>)
        ensures
            r == game_named(name@),
    {
        proof {
            reveal_strlit("jak1");
            reveal_strlit("jak2");
            reveal_strlit("jak3");
            reveal_strlit("jakx");
            assert("jak1"@ =~= game_name(SupportedGame::Jak1));
            assert("jak2"@ =~= game_name(SupportedGame::Jak2));
            assert("jak3"@ =~= game_name(SupportedGame::Jak3));
            assert("jakx"@ =~= game_name(SupportedGame::JakX));
        }
        if same_text(name, "jak1") {
            Some(SupportedGame::Jak1)
        } else if same_text(name, "jak2") {
            Some(SupportedGame::Jak2)
        } else if same_text(name, "jak3") {
            Some(SupportedGame::Jak3)
        } else if same_text(name, "jakx") {
            Some(SupportedGame::JakX)
        } else {
            None
        }
    }
}

/// Free bytes needed for a fresh install of the game called `game_name`;
/// a name that belongs to no supported game is an error.
pub fn diskspace_threshold_for_fresh_install(game_name: &str) -> (r: Result<u64, CommandError>)
    ensures
        match game_named(game_name@) {
            Some(g) => r == Ok::<u64, CommandError>(fresh_install_threshold(g) as u64),
            None => r is Err && r->Err_0 is UnknownGame && r->Err_0->UnknownGame_0@ == game_name@,
        },
{
    match SupportedGame::from_name(game_name) {
        Some(SupportedGame::Jak1) => Ok(4 * GIB),
        Some(_) => Ok(11 * GIB),
        None => Err(CommandError::UnknownGame(game_name.to_owned())),
    }
}

} // verus!
