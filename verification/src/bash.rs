//! Commands for the tools that finish a project, and what is shown of their
//! output.

use vstd::prelude::*;
use vstd::string::*;
use vstd::utf8::{decode_utf8, valid_utf8};
use crate::text::texts;

verus! {

/// A program to run, with its arguments in order.
pub struct Command {
    pub program: String,
    pub args: Vec<String>,
}

/// A `Command` as plain text.
pub struct CommandLine {
    pub program: Seq<char>,
    pub args: Seq<Seq<char>>,
}

impl View for Command {
    type V = CommandLine;

    open spec fn view(&self) -> CommandLine {
        CommandLine { program: self.program@, args: texts(self.args@) }
    }
}

/// What a finished command left behind.
pub struct Output {
    pub stdout: Vec<u8>,
    pub stderr: Vec<u8>,
    pub exit_code: i32,
}

/// The text to show of a command's output: what goes to standard output and
/// what goes to standard error, each absent where there is nothing to show.
pub struct Shown {
    pub stdout: Option<String>,
    pub stderr: Option<String>,
}

/// The command that initialises a repository in `root_dir`.
pub open spec fn git_init_line(root_dir: Seq<char>) -> CommandLine {
    CommandLine { program: "git"@, args: seq!["init"@, root_dir] }
}

/// The command that creates a virtual environment in `root_dir`.
pub open spec fn virtualenv_line(root_dir: Seq<char>) -> CommandLine {
    CommandLine { program: "python3"@, args: seq!["-m"@, "venv"@, root_dir + "/venv"@] }
}

/// The command that lets the Rust tool lay out the project `name`.
pub open spec fn cargo_new_line(name: Seq<char>) -> CommandLine {
    CommandLine { program: "cargo"@, args: seq!["new"@, name] }
}

/// The command that initialises a repository in `root_dir`.
pub fn git_init(root_dir: &str) -> (c: Command)
    ensures
        c@ == git_init_line(root_dir@),
{
    let mut args: Vec<String> = Vec::new();
    args.push(String::from_str("init"));
    args.push(String::from_str(root_dir));
    assert(texts(args@) =~= seq!["init"@, root_dir@]);
    Command { program: String::from_str("git"), args }
}

/// The command that creates a virtual environment named `venv` in
/// `root_dir`.
pub fn make_virtualenv(root_dir: &str) -> (c: Command)
    ensures
        c@ == virtualenv_line(root_dir@),
{
    let mut args: Vec<String> = Vec::new();
    args.push(String::from_str("-m"));
    args.push(String::from_str("venv"));
    args.push(String::from_str(root_dir).concat("/venv"));
    assert(texts(args@) =~= seq!["-m"@, "venv"@, root_dir@ + "/venv"@]);
    Command { program: String::from_str("python3"), args }
}

/// The command that lets the Rust tool lay out the project `name`.
pub fn cargo_new(name: &str) -> (c: Command)
    ensures
        c@ == cargo_new_line(name@),
{
    let mut args: Vec<String> = Vec::new();
    args.push(String::from_str("new"));
    args.push(String::from_str(name));
    assert(texts(args@) =~= seq!["new"@, name@]);
    Command { program: String::from_str("cargo"), args }
}

/// The text that `String::from_utf8_lossy` makes of `bytes`.
pub uninterp spec fn lossy_text(bytes: Seq<u8>) -> Seq<char>;

/// Calls `String::from_utf8_lossy` and takes the text as an owned string.
/// The text is the one that this conversion gives for these bytes; bytes
/// that are valid UTF-8 come out as the text they encode. What is put in
/// the place of invalid bytes is not described.
#[verifier::external_body]
fn from_utf8_lossy(bytes: &Vec<u8>) -> (text: String)
    ensures
        text@ == lossy_text(bytes@),
        valid_utf8(bytes@) ==> text@ == decode_utf8(bytes@),
{
    String::from_utf8_lossy(bytes).into_owned()
}

/// A text is shown exactly when it is not empty, and then unchanged.
pub fn shown(text: String) -> (r: Option<String>)
    ensures
        r is Some <==> text@.len() > 0,
        r matches Some(t) ==> t@ == text@,
{
    if text.as_str().is_empty() {
        None
    } else {
        Some(text)
    }
}

/// Decides what to show of a command's output: each stream read as text,
/// and left out where that text is empty. A stream of valid UTF-8 is shown
/// as the text it encodes, and a stream without bytes is not shown.
pub fn print_cmd_out(output: &Output) -> (s: Shown)
    ensures
        s.stdout is Some <==> lossy_text(output.stdout@).len() > 0,
        s.stdout matches Some(t) ==> t@ == lossy_text(output.stdout@),
        s.stderr is Some <==> lossy_text(output.stderr@).len() > 0,
        s.stderr matches Some(t) ==> t@ == lossy_text(output.stderr@),
        valid_utf8(output.stdout@) ==> lossy_text(output.stdout@) == decode_utf8(output.stdout@),
        valid_utf8(output.stderr@) ==> lossy_text(output.stderr@) == decode_utf8(output.stderr@),
        output.stdout@.len() == 0 ==> s.stdout is None,
        output.stderr@.len() == 0 ==> s.stderr is None,
{
    let stdout: String = from_utf8_lossy(&output.stdout);
    let stderr: String = from_utf8_lossy(&output.stderr);
    Shown { stdout: shown(stdout), stderr: shown(stderr) }
}

} // verus!
