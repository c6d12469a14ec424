//! The two modes in which a process may run the engine.

use crate::text::str_eq;
use vstd::prelude::*;

verus! {

/// Whether a process runs the broker or a client.
#[derive(Debug, Clone, Copy, PartialEq, Eq, Structural)]
pub enum Mode {
    Server,
    Client,
}

/// The mode that a mode argument asks for. Only `server` asks for the
/// broker; any other word, and no argument at all, means the client.
pub open spec fn mode_for(argument: Option<Seq<char>>) -> Mode {
    match argument {
        Some(word) => if word == "server"@ {
            Mode::Server
        } else {
            Mode::Client
        },
        None => Mode::Client,
    }
}

/// Picks the mode by the first argument of the process, if there is one.
pub fn select_mode(argument: Option<&str>) -> (mode: Mode)
    ensures
        mode == mode_for(
            match argument {
                Some(word) => Some(word@),
                None => None,
            },
        ),
{
    match argument {
        Some(word) => {
            if str_eq(word, "server") {
                Mode::Server
            } else {
                Mode::Client
            }
        },
        None => Mode::Client,
    }
}

} // verus!
