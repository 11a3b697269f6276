use vstd::prelude::*;
use vstd::string::*;
use crate::text::{ascii_blank, same_text, trim, trimmed};

verus! {

/// What the program was asked to do on its command line.
#[derive(PartialEq, Eq, Debug)]
pub enum Command {
    OpenListPanel(String),
    NewList(String),
    ListLists,
}

/// Reads the command from the arguments that follow the program name:
/// `new <name>` creates a list, `list` shows every list, and anything else
/// names a list to open. Names are trimmed.
pub fn parse_command(args: &Vec<String>) -> (r: Result<Command, String>)
    ensures
        args@.len() == 0 ==> (r matches Err(e) && e@ == "Please enter a valid command"@),
        args@.len() > 0 && args@[0]@ == "new"@ ==> if args@.len() < 2 || trimmed(
            args@[1]@,
        ).len() == 0 {
            (r matches Err(e) && e@ == "Please provide a valid list name"@)
        } else {
            (r matches Ok(Command::NewList(n)) && n@ == trimmed(args@[1]@))
        },
        args@.len() >= 2 && args@[0]@ == "new"@ && (forall|i: int|
            0 <= i < args@[1]@.len() ==> ascii_blank(#[trigger] args@[1]@[i])) ==> (r matches Err(
            e,
        ) && e@ == "Please provide a valid list name"@),
        args@.len() > 0 && args@[0]@ == "list"@ ==> r matches Ok(Command::ListLists),
        args@.len() > 0 && args@[0]@ != "new"@ && args@[0]@ != "list"@ ==> (r matches Ok(
            Command::OpenListPanel(n),
        ) && n@ == trimmed(args@[0]@)),
{
    proof {
        reveal_strlit("new");
        reveal_strlit("list");
        assert("new"@.len() != "list"@.len());
    }
    if args.len() == 0 {
        return Err(String::from_str("Please enter a valid command"));
    }
    if same_text(args[0].as_str(), "new") {
        if args.len() < 2 {
            return Err(String::from_str("Please provide a valid list name"));
        }
        let name = trim(args[1].as_str());
        if name.as_str().unicode_len() == 0 {
            return Err(String::from_str("Please provide a valid list name"));
        }
        return Ok(Command::NewList(name));
    }
    if same_text(args[0].as_str(), "list") {
        Ok(Command::ListLists)
    } else {
        Ok(Command::OpenListPanel(trim(args[0].as_str())))
    }
}

} // verus!
