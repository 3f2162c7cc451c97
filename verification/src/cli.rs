//! The command line: which command the arguments ask for, the help text,
//! and the texts of the interactive set-up.

use vstd::prelude::*;
use crate::text::{push_str, trim, trimmed};

verus! {

/// A command of the tool.
#[derive(Debug, Clone, PartialEq, Eq)]
pub enum Command {
    /// Print the usage.
    Help,
    /// Create the project of the current directory.
    Create,
    /// Stop the project of the current directory.
    Stop,
    /// Set the environment up.
    Init,
    /// Stop the shared services and the project of the current directory.
    Halt,
    /// Start the named project, or that of the current directory.
    Start(Option<String>),
}

/// The mathematical content of a [`Command`].
pub enum Request {
    Help,
    Create,
    Stop,
    Init,
    Halt,
    Start(Option<Seq<char>>),
}

impl DeepView for Command {
    type V = Request;

    open spec fn deep_view(&self) -> Request {
        match self {
            Command::Help => Request::Help,
            Command::Create => Request::Create,
            Command::Stop => Request::Stop,
            Command::Init => Request::Init,
            Command::Halt => Request::Halt,
            Command::Start(p) => Request::Start(p.deep_view()),
        }
    }
}

/// The command that the arguments `args` ask for (the first argument is
/// the program): the second argument, without surrounding whitespace, names
/// it; `start` takes the project from the third argument when there is one;
/// anything else, or no argument, asks for the usage.
pub open spec fn request_of(args: Seq<Seq<char>>) -> Request {
    if args.len() <= 1 {
        Request::Help
    } else {
        let action = trimmed(args[1]);
        if action == "create"@ {
            Request::Create
        } else if action == "stop"@ {
            Request::Stop
        } else if action == "init"@ {
            Request::Init
        } else if action == "halt"@ {
            Request::Halt
        } else if action == "start"@ {
            if args.len() <= 2 {
                Request::Start(None)
            } else {
                Request::Start(Some(trimmed(args[2])))
            }
        } else {
            Request::Help
        }
    }
}

fn is(text: &String, word: &str) -> (b: bool)
    ensures
        b == (text@ == word@),
{
    *text == word.to_owned()
}

/// The command that the command-line arguments ask for (see `request_of`).
pub fn parse_command(args: &Vec<String>) -> (cmd: Command)
    requires
        args@.len() >= 1,
    ensures
        cmd.deep_view() == request_of(args.deep_view()),
{
    if args.len() == 1 {
        return Command::Help;
    }
    let action = trim(args[1].as_str());
    if is(&action, "create") {
        Command::Create
    } else if is(&action, "stop") {
        Command::Stop
    } else if is(&action, "init") {
        Command::Init
    } else if is(&action, "halt") {
        Command::Halt
    } else if is(&action, "start") {
        if args.len() <= 2 {
            Command::Start(None)
        } else {
            Command::Start(Some(trim(args[2].as_str())))
        }
    } else {
        Command::Help
    }
}

/// The usage text.
pub const HELP: &'static str = "Usage: easily [start|stop|create|remove] <project>\n- start <?project>\t Starts the given project or the project in the current directory\n- stop <?project>\t Stops the given project or the project in the current directory\n- restart <?project>\t Restart the given project or the project in the current directory\n- create Creates a new project\n- remove <project>\t Removes the project containers from docker\n- help\t\t\t Shows this help message\n\n";

/// The usage text, to print as it is.
pub fn help_text() -> (res: String)
    ensures
        res@ == HELP@,
{
    HELP.to_owned()
}

/// The question that asks for the projects folder, offering `parent`.
pub fn init_prompt(parent: &str) -> (res: String)
    ensures
        res@ == "Plase, input the folder where your projects are stored: ("@ + parent@ + ")"@,
{
    let mut res = "Plase, input the folder where your projects are stored: (".to_owned();
    push_str(&mut res, parent);
    push_str(&mut res, ")");
    res
}

/// The folder that the set-up takes from the answer `line`: the line as
/// read after the offered folder `parent`, without surrounding whitespace.
pub fn init_answer(parent: &str, line: &str) -> (res: String)
    ensures
        res@ == trimmed(parent@ + line@),
{
    let mut buffer = parent.to_owned();
    push_str(&mut buffer, line);
    trim(buffer.as_str())
}

/// The message for an answer naming a folder that does not exist.
pub fn missing_folder_message(folder: &str) -> (res: String)
    ensures
        res@ == "Path \""@ + folder@ + "\" doesn't exist!"@,
{
    let mut res = "Path \"".to_owned();
    push_str(&mut res, folder);
    push_str(&mut res, "\" doesn't exist!");
    res
}

} // verus!
