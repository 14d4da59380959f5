//! Clipboard helpers: which program is run, with which arguments and input.
//!
//! Wayland uses `wl-copy` (serving the GIF from stdin); X11 falls back to
//! `xclip` (reading the GIF from a file argument).

use vstd::prelude::*;
use vstd::string::*;

use crate::text::{decimal, push_decimal};

verus! {

/// Clipboard front-end supported on this platform stack.
#[derive(Debug, Clone, Copy, PartialEq, Eq, Structural)]
pub enum ClipboardTool {
    /// Wayland clipboard helper; serves the GIF from stdin.
    WlCopy,
    /// X11 clipboard helper; reads the GIF from the file argument.
    Xclip,
}

/// The name of a tool's program.
pub open spec fn program_of(tool: ClipboardTool) -> Seq<char> {
    match tool {
        ClipboardTool::WlCopy => "wl-copy"@,
        ClipboardTool::Xclip => "xclip"@,
    }
}

/// What a program is given on its standard input.
#[derive(Debug)]
pub enum Input {
    /// Nothing.
    Nothing,
    /// The file at this path.
    File(String),
    /// This text.
    Text(String),
}

/// A program to run.
#[derive(Debug)]
pub struct CommandLine {
    pub program: &'static str,
    pub args: Vec<String>,
    pub input: Input,
}

/// The texts of some arguments.
pub open spec fn arguments(args: Seq<String>) -> Seq<Seq<char>> {
    args.map_values(|a: String| a@)
}

fn push_arg(args: &mut Vec<String>, arg: &str)
    ensures
        arguments(final(args)@) == arguments(old(args)@).push(arg@),
{
    args.push(arg.to_owned());
    assert(arguments(args@) == arguments(old(args)@).push(arg@));
}

impl ClipboardTool {
    /// The tool's program.
    pub fn program(self) -> (r: &'static str)
        ensures
            r@ == program_of(self),
    {
        match self {
            ClipboardTool::WlCopy => "wl-copy",
            ClipboardTool::Xclip => "xclip",
        }
    }

    /// The command that places the bytes of a GIF file on the clipboard:
    /// `wl-copy --type image/gif < file`, or
    /// `xclip -selection clipboard -t image/gif -i file`.
    pub fn gif_command(self, file: &str) -> (r: CommandLine)
        ensures
            r.program@ == program_of(self),
            match self {
                ClipboardTool::WlCopy => {
                    &&& arguments(r.args@) == seq!["--type"@, "image/gif"@]
                    &&& r.input is File
                    &&& r.input->File_0@ == file@
                },
                ClipboardTool::Xclip => {
                    &&& arguments(r.args@) == seq![
                        "-selection"@,
                        "clipboard"@,
                        "-t"@,
                        "image/gif"@,
                        "-i"@,
                        file@,
                    ]
                    &&& r.input is Nothing
                },
            },
    {
        let mut args: Vec<String> = Vec::new();
        assert(arguments(args@) == Seq::<Seq<char>>::empty());
        match self {
            ClipboardTool::WlCopy => {
                push_arg(&mut args, "--type");
                push_arg(&mut args, "image/gif");
                assert(arguments(args@) == seq!["--type"@, "image/gif"@]);
                CommandLine {
                    program: self.program(),
                    args,
                    input: Input::File(file.to_owned()),
                }
            },
            ClipboardTool::Xclip => {
                push_arg(&mut args, "-selection");
                push_arg(&mut args, "clipboard");
                push_arg(&mut args, "-t");
                push_arg(&mut args, "image/gif");
                push_arg(&mut args, "-i");
                push_arg(&mut args, file);
                assert(arguments(args@) == seq![
                    "-selection"@,
                    "clipboard"@,
                    "-t"@,
                    "image/gif"@,
                    "-i"@,
                    file@,
                ]);
                CommandLine { program: self.program(), args, input: Input::Nothing }
            },
        }
    }

    /// The command that places a text on the clipboard: `wl-copy text`, or
    /// `xclip -selection clipboard` reading the text from its standard input.
    pub fn text_command(self, text: &str) -> (r: CommandLine)
        ensures
            r.program@ == program_of(self),
            match self {
                ClipboardTool::WlCopy => {
                    &&& arguments(r.args@) == seq![text@]
                    &&& r.input is Nothing
                },
                ClipboardTool::Xclip => {
                    &&& arguments(r.args@) == seq!["-selection"@, "clipboard"@]
                    &&& r.input is Text
                    &&& r.input->Text_0@ == text@
                },
            },
    {
        let mut args: Vec<String> = Vec::new();
        assert(arguments(args@) == Seq::<Seq<char>>::empty());
        match self {
            ClipboardTool::WlCopy => {
                push_arg(&mut args, text);
                assert(arguments(args@) == seq![text@]);
                CommandLine { program: self.program(), args, input: Input::Nothing }
            },
            ClipboardTool::Xclip => {
                push_arg(&mut args, "-selection");
                push_arg(&mut args, "clipboard");
                assert(arguments(args@) == seq!["-selection"@, "clipboard"@]);
                CommandLine {
                    program: self.program(),
                    args,
                    input: Input::Text(text.to_owned()),
                }
            },
        }
    }

    /// The tool to use, given which are installed; wl-copy is preferred.
    pub fn detect(wl_copy: bool, xclip: bool) -> (r: Option<ClipboardTool>)
        ensures
            r == (if wl_copy {
                Some(ClipboardTool::WlCopy)
            } else if xclip {
                Some(ClipboardTool::Xclip)
            } else {
                None
            }),
    {
        if wl_copy {
            Some(ClipboardTool::WlCopy)
        } else if xclip {
            Some(ClipboardTool::Xclip)
        } else {
            None
        }
    }
}

/// What is said when there is no tool.
pub open spec fn no_tool() -> Seq<char> {
    "no clipboard tool found (install wl-copy or xclip)"@
}

/// The command that copies a text with the tool that was found.
pub fn copy_text(tool: Option<ClipboardTool>, text: &str) -> (r: Result<CommandLine, String>)
    ensures
        match (tool, r) {
            (None, Err(e)) => e@ == no_tool(),
            (Some(t), Ok(command)) => {
                &&& command.program@ == program_of(t)
                &&& t == ClipboardTool::WlCopy ==> arguments(command.args@) == seq![text@]
                    && command.input is Nothing
                &&& t == ClipboardTool::Xclip ==> arguments(command.args@) == seq![
                    "-selection"@,
                    "clipboard"@,
                ] && command.input is Text && command.input->Text_0@ == text@
            },
            _ => false,
        },
{
    match tool {
        Some(t) => Ok(t.text_command(text)),
        None => Err("no clipboard tool found (install wl-copy or xclip)".to_owned()),
    }
}

/// Whether a text was copied, given whether the tool could be run and succeeded.
pub fn text_copied(tool: ClipboardTool, succeeded: bool) -> (r: Result<(), String>)
    ensures
        match r {
            Ok(()) => succeeded,
            Err(e) => !succeeded && e@ == "clipboard copy via "@ + program_of(tool) + " failed"@,
        },
{
    if succeeded {
        Ok(())
    } else {
        let mut e: String = "clipboard copy via ".to_owned();
        e.append(tool.program());
        e.append(" failed");
        Err(e)
    }
}

/// The command that copies a GIF file with the tool that was found.
pub fn place_gif_on_clipboard(tool: Option<ClipboardTool>, file: &str) -> (r: Result<CommandLine, String>)
    ensures
        match (tool, r) {
            (None, Err(e)) => e@ == no_tool(),
            (Some(t), Ok(command)) => {
                &&& command.program@ == program_of(t)
                &&& t == ClipboardTool::WlCopy ==> arguments(command.args@) == seq![
                    "--type"@,
                    "image/gif"@,
                ] && command.input is File && command.input->File_0@ == file@
                &&& t == ClipboardTool::Xclip ==> arguments(command.args@) == seq![
                    "-selection"@,
                    "clipboard"@,
                    "-t"@,
                    "image/gif"@,
                    "-i"@,
                    file@,
                ] && command.input is Nothing
            },
            _ => false,
        },
{
    match tool {
        Some(t) => Ok(t.gif_command(file)),
        None => Err("no clipboard tool found (install wl-copy or xclip)".to_owned()),
    }
}

/// How running a tool ended.
#[derive(Debug)]
pub enum Exit {
    /// With success.
    Success,
    /// With the status described here.
    Failure(String),
    /// Not at all: it could not be run, for the reason given.
    NotRun(String),
}

/// Whether a GIF was copied, given how the tool ended.
pub fn gif_copied(tool: ClipboardTool, exit: Exit) -> (r: Result<(), String>)
    ensures
        match (exit, r) {
            (Exit::Success, Ok(())) => true,
            (Exit::Failure(status), Err(e)) => e@ == program_of(tool) + " exited with "@ + status@,
            (Exit::NotRun(why), Err(e)) => e@ == "failed to run "@ + program_of(tool) + ": "@
                + why@,
            _ => false,
        },
{
    match exit {
        Exit::Success => Ok(()),
        Exit::Failure(status) => {
            let mut e: String = tool.program().to_owned();
            e.append(" exited with ");
            e.append(status.as_str());
            Err(e)
        },
        Exit::NotRun(why) => {
            let mut e: String = "failed to run ".to_owned();
            e.append(tool.program());
            e.append(": ");
            e.append(why.as_str());
            Err(e)
        },
    }
}

/// The name of a temp file for a GIF, made of the number of the process and the
/// time in nanoseconds.
pub fn temp_gif_name(process: u32, nanos: u128) -> (r: String)
    ensures
        r@ == "gifdeck-"@ + decimal(process as nat) + "-"@ + decimal(nanos as nat) + ".gif"@,
{
    let mut out: String = "gifdeck-".to_owned();
    push_decimal(&mut out, process as u128);
    out.append("-");
    push_decimal(&mut out, nanos);
    out.append(".gif");
    out
}

/// Whether a file can be run: it is a regular file, and someone may execute it.
pub fn is_executable(is_file: bool, mode: u32) -> (r: bool)
    ensures
        r == (is_file && mode & 0o111 != 0),
{
    is_file && mode & 0o111 != 0
}

} // verus!
