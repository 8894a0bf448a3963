//! The commands of the small command-line front end.
use vstd::prelude::*;

verus! {

/// What the user asked for.
#[derive(Debug, Clone, Copy, PartialEq, Eq, Structural)]
pub enum Command {
    CreateUser,
    GetLights,
}

/// The command a word names: `create-user` or `get-lights`; any other word
/// names none.
pub fn match_command(cmd: &str) -> (r: Option<Command>)
    ensures
        r == (if cmd@ == "create-user"@ {
            Some(Command::CreateUser)
        } else if cmd@ == "get-lights"@ {
            Some(Command::GetLights)
        } else {
            None
        }),
{
    let word = cmd.to_owned();
    if word == "create-user".to_owned() {
        Some(Command::CreateUser)
    } else if word == "get-lights".to_owned() {
        Some(Command::GetLights)
    } else {
        None
    }
}

} // verus!
