//! The command line: `<create|create_protected|delete|delete_protected>
//! <service_name> [binPath=<path_to_service>]`.

use vstd::prelude::*;

use crate::procedure::Command;

verus! {

/// What the program is asked to do.
pub enum Invocation {
    /// Show the usage text: wrong number of arguments, or an unknown
    /// command.
    Help,
    /// The optional third argument does not start with `binPath=`: say so,
    /// then show the usage text.
    BadBinPath,
    /// Run a procedure.
    Run { command: Command, service_name: String, service_file: String },
}

pub enum InvocationView {
    Help,
    BadBinPath,
    Run { command: Command, service_name: Seq<char>, service_file: Seq<char> },
}

impl View for Invocation {
    type V = InvocationView;

    open spec fn view(&self) -> InvocationView {
        match self {
            Invocation::Help => InvocationView::Help,
            Invocation::BadBinPath => InvocationView::BadBinPath,
            Invocation::Run { command, service_name, service_file } => InvocationView::Run {
                command: *command,
                service_name: service_name@,
                service_file: service_file@,
            },
        }
    }
}

/// The service executable used when none is given.
pub open spec fn default_service_path() -> Seq<char> {
    "win-service.exe"@
}

pub open spec fn bin_path_prefix() -> Seq<char> {
    "binPath="@
}

/// `s` without the leading `prefix`, if it starts with it.
pub open spec fn strip_prefix(s: Seq<char>, prefix: Seq<char>) -> Option<Seq<char>> {
    if prefix.is_prefix_of(s) {
        Some(s.subrange(prefix.len() as int, s.len() as int))
    } else {
        None
    }
}

/// The command that a word names.
pub open spec fn command_named(word: Seq<char>) -> Option<Command> {
    if word == "create"@ {
        Some(Command::Create)
    } else if word == "create_protected"@ {
        Some(Command::CreateProtected)
    } else if word == "delete"@ {
        Some(Command::Delete)
    } else if word == "delete_protected"@ {
        Some(Command::DeleteProtected)
    } else {
        None
    }
}

/// What the arguments (the program's name first) ask for.
pub open spec fn invocation_of(args: Seq<Seq<char>>) -> InvocationView {
    if args.len() != 3 && args.len() != 4 {
        InvocationView::Help
    } else {
        let file = if args.len() == 4 {
            strip_prefix(args[3], bin_path_prefix())
        } else {
            Some(default_service_path())
        };
        match file {
            None => InvocationView::BadBinPath,
            Some(service_file) => match command_named(args[1]) {
                None => InvocationView::Help,
                Some(command) => InvocationView::Run {
                    command,
                    service_name: args[2],
                    service_file,
                },
            },
        }
    }
}

fn strip_bin_path(arg: &String) -> (r: Option<String>)
    ensures
        match r {
            Some(s) => strip_prefix(arg@, bin_path_prefix()) == Some(s@),
            None => strip_prefix(arg@, bin_path_prefix()) is None,
        },
{
    let prefix = "binPath=";
    proof {
        reveal_strlit("binPath=");
    }
    let s = arg.as_str();
    let n = s.unicode_len();
    let m = prefix.unicode_len();
    if n < m {
        return None;
    }
    let head = String::from_str(s.substring_char(0, m));
    if head == String::from_str(prefix) {
        let tail = String::from_str(s.substring_char(m, n));
        proof {
            assert(prefix@.is_prefix_of(arg@));
        }
        Some(tail)
    } else {
        proof {
            if prefix@.is_prefix_of(arg@) {
                assert(arg@.subrange(0, m as int) =~= prefix@);
            }
        }
        None
    }
}

fn command_of(word: &String) -> (c: Option<Command>)
    ensures
        c == command_named(word@),
{
    if *word == String::from_str("create") {
        Some(Command::Create)
    } else if *word == String::from_str("create_protected") {
        Some(Command::CreateProtected)
    } else if *word == String::from_str("delete") {
        Some(Command::Delete)
    } else if *word == String::from_str("delete_protected") {
        Some(Command::DeleteProtected)
    } else {
        None
    }
}

/// Reads the program's arguments, its own name first.
pub fn parse_args(args: &Vec<String>) -> (r: Invocation)
    ensures
        r@ == invocation_of(args.deep_view()),
{
    let ghost a = args.deep_view();
    if args.len() != 3 && args.len() != 4 {
        return Invocation::Help;
    }
    let service_file = if args.len() == 4 {
        match strip_bin_path(&args[3]) {
            Some(f) => f,
            None => {
                return Invocation::BadBinPath;
            },
        }
    } else {
        String::from_str("win-service.exe")
    };
    match command_of(&args[1]) {
        None => Invocation::Help,
        Some(command) => Invocation::Run {
            command,
            service_name: args[2].clone(),
            service_file,
        },
    }
}

/// The usage text, line by line.
pub open spec fn help_text() -> Seq<Seq<char>> {
    seq![
        "Usage:"@,
        "\tppl-install.exe <create|create_protected|remove> <service_name>"@,
        "\tor"@,
        "\tppl-install.exe <create|create_protected|remove> <service_name> bin_path=<path_to_service>\n"@,
        "In the first case path_to_service is default, and means \"win-service.exe\""@,
    ]
}

/// The usage text, line by line.
pub fn help_lines() -> (lines: Vec<String>)
    ensures
        lines.deep_view() == help_text(),
{
    let lines = vec![
        String::from_str("Usage:"),
        String::from_str("\tppl-install.exe <create|create_protected|remove> <service_name>"),
        String::from_str("\tor"),
        String::from_str(
            "\tppl-install.exe <create|create_protected|remove> <service_name> bin_path=<path_to_service>\n",
        ),
        String::from_str("In the first case path_to_service is default, and means \"win-service.exe\""),
    ];
    assert(lines.deep_view() =~= help_text());
    lines
}

/// With three arguments naming a command, the service is the one named by
/// the third argument and its executable is `win-service.exe`.
pub proof fn three_arguments_use_default_path(args: Seq<Seq<char>>)
    requires
        args.len() == 3,
    ensures
        args[1] == "create"@ ==> invocation_of(args) == (InvocationView::Run {
            command: Command::Create,
            service_name: args[2],
            service_file: "win-service.exe"@,
        }),
        args[1] == "create_protected"@ ==> invocation_of(args) == (InvocationView::Run {
            command: Command::CreateProtected,
            service_name: args[2],
            service_file: "win-service.exe"@,
        }),
        args[1] == "delete"@ ==> invocation_of(args) == (InvocationView::Run {
            command: Command::Delete,
            service_name: args[2],
            service_file: "win-service.exe"@,
        }),
        args[1] == "delete_protected"@ ==> invocation_of(args) == (InvocationView::Run {
            command: Command::DeleteProtected,
            service_name: args[2],
            service_file: "win-service.exe"@,
        }),
        !(args[1] == "create"@ || args[1] == "create_protected"@ || args[1] == "delete"@
            || args[1] == "delete_protected"@) ==> invocation_of(args) == InvocationView::Help,
{
    reveal_strlit("create");
    reveal_strlit("create_protected");
    reveal_strlit("delete");
    reveal_strlit("delete_protected");
    assert("create_protected"@.len() != "create"@.len());
    assert("delete"@[0] != "create"@[0]);
    assert("delete"@.len() != "create_protected"@.len());
    assert("delete_protected"@.len() != "create"@.len());
    assert("delete_protected"@.len() != "delete"@.len());
    assert("delete_protected"@[0] != "create_protected"@[0]);
}

/// With a fourth argument `binPath=<path>`, the executable is `<path>`;
/// a fourth argument without that prefix is refused, whatever the command
/// word; any other number of arguments asks for the usage text.
pub proof fn bin_path_argument(args: Seq<Seq<char>>, path: Seq<char>)
    ensures
        args.len() == 4 && args[3] == "binPath="@ + path && args[1] == "create"@ ==> invocation_of(
            args,
        ) == (InvocationView::Run {
            command: Command::Create,
            service_name: args[2],
            service_file: path,
        }),
        args.len() == 4 && args[3] == "binPath="@ + path && args[1] == "create_protected"@
            ==> invocation_of(args) == (InvocationView::Run {
            command: Command::CreateProtected,
            service_name: args[2],
            service_file: path,
        }),
        args.len() == 4 && !"binPath="@.is_prefix_of(args[3]) ==> invocation_of(args)
            == InvocationView::BadBinPath,
        args.len() != 3 && args.len() != 4 ==> invocation_of(args) == InvocationView::Help,
{
    reveal_strlit("create");
    reveal_strlit("create_protected");
    reveal_strlit("binPath=");
    assert("create_protected"@.len() != "create"@.len());
    if args.len() == 4 && args[3] == "binPath="@ + path {
        assert("binPath="@.is_prefix_of(args[3]));
        assert(args[3].subrange(8, args[3].len() as int) =~= path);
    }
}

/// The usage text has five lines, starts with "Usage:", and its last line
/// names, in quotes, the very executable that three arguments default to.
pub proof fn usage_names_the_default(args: Seq<Seq<char>>)
    requires
        args.len() == 3,
        args[1] == "create"@,
    ensures
        help_text().len() == 5,
        help_text()[0] == "Usage:"@,
        help_text()[4].subrange(57, 72) == invocation_of(args)->Run_service_file,
        help_text()[4][56] == '"' && help_text()[4][72] == '"',
{
    reveal_strlit("In the first case path_to_service is default, and means \"win-service.exe\"");
    reveal_strlit("win-service.exe");
    reveal_strlit("create");
    let last = help_text()[4];
    assert(last.subrange(57, 72) =~= "win-service.exe"@);
}

} // verus!
