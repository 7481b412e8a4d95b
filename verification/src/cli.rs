//! The command line: which command a list of arguments asks for.

use crate::text::{chars_of, same_text};
use vstd::prelude::*;

verus! {

/// The options of a run.
#[derive(Clone, Copy, Debug, Default, PartialEq, Eq, Structural)]
pub struct Args {
    pub logout: bool,
}

#[derive(Clone, Copy, Debug, PartialEq, Eq, Structural)]
pub enum Command {
    Run(Args),
    Help,
    Version,
}

/// Why a command line was refused: the exit code, and the message to print.
#[derive(Debug, PartialEq, Eq)]
pub struct ParseError {
    pub code: i32,
    pub message: String,
}

/// Whether an argument asks for help.
pub open spec fn asks_help(arg: Seq<char>) -> bool {
    arg == "-h"@ || arg == "--help"@
}

/// Whether an argument asks for the version.
pub open spec fn asks_version(arg: Seq<char>) -> bool {
    arg == "-V"@ || arg == "--version"@
}

/// Whether an argument asks to log out.
pub open spec fn asks_logout(arg: Seq<char>) -> bool {
    arg == "--logout"@
}

/// Whether an argument is one that the command line knows.
pub open spec fn is_known(arg: Seq<char>) -> bool {
    asks_help(arg) || asks_version(arg) || asks_logout(arg)
}

/// Whether an argument looks like an option: it begins with `-`.
pub open spec fn is_option(arg: Seq<char>) -> bool {
    arg.len() > 0 && arg[0] == '-'
}

/// The help text for a program called `bin_name`.
pub open spec fn help_for(bin_name: Seq<char>) -> Seq<char> {
    "Longbridge Terminal\n\n用法：\n  "@ + bin_name
        + " [选项]\n\n选项：\n  -h, --help       显示帮助信息\n  -V, --version    显示版本信息\n      --logout     清理本地登录状态（预留）\n"@
}

/// The message that refuses the argument `arg`.
pub open spec fn refusal(arg: Seq<char>) -> Seq<char> {
    (if is_option(arg) {
        "未知选项："@
    } else {
        "不支持的位置参数："@
    }) + arg + "\n\n"@ + help_for("longbridge"@)
}

/// The command that a list of known arguments asks for: help before version
/// before a run.
pub open spec fn command_of(args: Seq<Seq<char>>) -> Command {
    if exists|i: int| 0 <= i < args.len() && asks_help(args[i]) {
        Command::Help
    } else if exists|i: int| 0 <= i < args.len() && asks_version(args[i]) {
        Command::Version
    } else {
        Command::Run(Args { logout: exists|i: int| 0 <= i < args.len() && asks_logout(args[i]) })
    }
}

/// The texts of a list of arguments.
pub open spec fn arg_texts(args: Seq<String>) -> Seq<Seq<char>> {
    args.map_values(|a: String| a@)
}

#[must_use]
pub fn help_text(bin_name: &str) -> (r: String)
    ensures
        r@ == help_for(bin_name@),
{
    let mut text = String::from_str("Longbridge Terminal\n\n用法：\n  ");
    text.append(bin_name);
    text.append(
        " [选项]\n\n选项：\n  -h, --help       显示帮助信息\n  -V, --version    显示版本信息\n      --logout     清理本地登录状态（预留）\n",
    );
    text
}

/// The line that names the program and its version.
#[must_use]
pub fn version_text(name: &str, version: &str) -> (r: String)
    ensures
        r@ == name@ + " "@ + version@,
{
    let mut text = String::from_str(name);
    text.append(" ");
    text.append(version);
    text
}

fn refuse(arg: &str) -> (r: ParseError)
    ensures
        r.code == 2,
        r.message@ == refusal(arg@),
{
    let v = chars_of(arg);
    let mut message = if v.len() > 0 && v[0] == '-' {
        String::from_str("未知选项：")
    } else {
        String::from_str("不支持的位置参数：")
    };
    message.append(arg);
    message.append("\n\n");
    let help = help_text("longbridge");
    message.append(help.as_str());
    ParseError { code: 2, message }
}

/// Reads a command line. The first argument that is not known is refused, with
/// exit code 2; else the arguments ask for help, for the version, or for a run.
pub fn parse_args(args: Vec<String>) -> (r: Result<Command, ParseError>)
    ensures
        match r {
            Ok(command) => {
                &&& forall|i: int| 0 <= i < args@.len() ==> is_known(#[trigger] args@[i]@)
                &&& command == command_of(arg_texts(args@))
            },
            Err(error) => exists|i: int|
                {
                    &&& 0 <= i < args@.len()
                    &&& !is_known(#[trigger] args@[i]@)
                    &&& forall|j: int| 0 <= j < i ==> is_known(#[trigger] args@[j]@)
                    &&& error.code == 2
                    &&& error.message@ == refusal(args@[i]@)
                },
        },
{
    let mut logout = false;
    let mut show_help = false;
    let mut show_version = false;
    let ghost texts = arg_texts(args@);
    let mut i: usize = 0;
    while i < args.len()
        invariant
            i <= args.len(),
            texts == arg_texts(args@),
            forall|j: int| 0 <= j < i ==> is_known(#[trigger] args@[j]@),
            show_help == exists|j: int| 0 <= j < i && asks_help(texts[j]),
            show_version == exists|j: int| 0 <= j < i && asks_version(texts[j]),
            logout == exists|j: int| 0 <= j < i && asks_logout(texts[j]),
        decreases args.len() - i,
    {
        let arg = args[i].as_str();
        assert(texts[i as int] == arg@);
        proof {
            reveal_strlit("-h");
            reveal_strlit("--help");
            reveal_strlit("-V");
            reveal_strlit("--version");
            reveal_strlit("--logout");
            assert("-h"@[1] != "-V"@[1]);
            assert("--help"@[2] != "--logout"@[2]);
        }
        if same_text(arg, "-h") || same_text(arg, "--help") {
            show_help = true;
        } else if same_text(arg, "-V") || same_text(arg, "--version") {
            show_version = true;
        } else if same_text(arg, "--logout") {
            logout = true;
        } else {
            return Err(refuse(arg));
        }
        i = i + 1;
    }
    if show_help {
        Ok(Command::Help)
    } else if show_version {
        Ok(Command::Version)
    } else {
        Ok(Command::Run(Args { logout }))
    }
}

} // verus!
