//! How things get onto the clipboard.

use vstd::prelude::*;

use crate::clipboard::{ClipboardTool, CommandLine, Exit};
use crate::text::{decimal, is_digits};

verus! {

/// Whether the arguments of a command are these texts.
pub open spec fn has_args(c: CommandLine, args: Seq<Seq<char>>) -> bool {
    &&& c.args@.len() == args.len()
    &&& forall|i: int| 0 <= i < args.len() ==> (#[trigger] c.args@[i])@ == args[i]
}

proof fn lemma_args(c: CommandLine, args: Seq<Seq<char>>)
    requires
        crate::clipboard::arguments(c.args@) == args,
    ensures
        has_args(c, args),
{
    assert forall|i: int| 0 <= i < args.len() implies (#[trigger] c.args@[i])@ == args[i] by {
        assert(crate::clipboard::arguments(c.args@)[i] == c.args@[i]@);
    }
}

/// The tool is one that is installed, wl-copy before xclip.
pub proof fn lemma_tool(wl_copy: bool, xclip: bool, r: Option<ClipboardTool>)
    requires
        call_ensures(ClipboardTool::detect, (wl_copy, xclip), r),
    ensures
        r is Some <==> wl_copy || xclip,
        r == Some(ClipboardTool::WlCopy) <==> wl_copy,
        r == Some(ClipboardTool::Xclip) <==> xclip && !wl_copy,
{
}

/// The program of each tool.
pub proof fn lemma_program(t: ClipboardTool, r: &'static str)
    requires
        call_ensures(ClipboardTool::program, (t,), r),
    ensures
        t == ClipboardTool::WlCopy ==> r@ == "wl-copy"@,
        t == ClipboardTool::Xclip ==> r@ == "xclip"@,
{
}

/// A text is handed to wl-copy as its argument, and to xclip on its input, for the
/// clipboard; nothing else is handed over. Without a tool nothing can be copied.
pub proof fn lemma_text_is_copied(
    tool: Option<ClipboardTool>,
    text: &str,
    r: Result<CommandLine, String>,
)
    requires
        call_ensures(crate::clipboard::copy_text, (tool, text), r),
    ensures
        r is Ok <==> tool is Some,
        r is Err ==> r->Err_0@ == "no clipboard tool found (install wl-copy or xclip)"@,
        tool == Some(ClipboardTool::WlCopy) ==> {
            &&& r->Ok_0.program@ == "wl-copy"@
            &&& has_args(r->Ok_0, seq![text@])
            &&& r->Ok_0.input is Nothing
        },
        tool == Some(ClipboardTool::Xclip) ==> {
            &&& r->Ok_0.program@ == "xclip"@
            &&& has_args(r->Ok_0, seq!["-selection"@, "clipboard"@])
            &&& r->Ok_0.input is Text
            &&& r->Ok_0.input->Text_0@ == text@
        },
{
    if tool == Some(ClipboardTool::WlCopy) {
        lemma_args(r->Ok_0, seq![text@]);
    }
    if tool == Some(ClipboardTool::Xclip) {
        lemma_args(r->Ok_0, seq!["-selection"@, "clipboard"@]);
    }
}

/// A GIF file is put on the clipboard as an image: wl-copy reads it from its input,
/// xclip from the file that is named last.
pub proof fn lemma_gif_is_copied(
    tool: Option<ClipboardTool>,
    file: &str,
    r: Result<CommandLine, String>,
)
    requires
        call_ensures(crate::clipboard::place_gif_on_clipboard, (tool, file), r),
    ensures
        r is Ok <==> tool is Some,
        r is Err ==> r->Err_0@ == "no clipboard tool found (install wl-copy or xclip)"@,
        tool == Some(ClipboardTool::WlCopy) ==> {
            &&& r->Ok_0.program@ == "wl-copy"@
            &&& has_args(r->Ok_0, seq!["--type"@, "image/gif"@])
            &&& r->Ok_0.input is File
            &&& r->Ok_0.input->File_0@ == file@
        },
        tool == Some(ClipboardTool::Xclip) ==> {
            &&& r->Ok_0.program@ == "xclip"@
            &&& has_args(
                r->Ok_0,
                seq!["-selection"@, "clipboard"@, "-t"@, "image/gif"@, "-i"@, file@],
            )
            &&& r->Ok_0.input is Nothing
        },
{
    if tool == Some(ClipboardTool::WlCopy) {
        lemma_args(r->Ok_0, seq!["--type"@, "image/gif"@]);
    }
    if tool == Some(ClipboardTool::Xclip) {
        lemma_args(
            r->Ok_0,
            seq!["-selection"@, "clipboard"@, "-t"@, "image/gif"@, "-i"@, file@],
        );
    }
}

/// With a tool, copying runs the command of the tool.
pub proof fn lemma_commands_of_the_tool(
    t: ClipboardTool,
    s: &str,
    text: CommandLine,
    gif: CommandLine,
    copied: Result<CommandLine, String>,
    placed: Result<CommandLine, String>,
)
    requires
        call_ensures(ClipboardTool::text_command, (t, s), text),
        call_ensures(ClipboardTool::gif_command, (t, s), gif),
        call_ensures(crate::clipboard::copy_text, (Some(t), s), copied),
        call_ensures(crate::clipboard::place_gif_on_clipboard, (Some(t), s), placed),
    ensures
        copied is Ok,
        copied->Ok_0.program@ == text.program@,
        crate::clipboard::arguments(copied->Ok_0.args@) == crate::clipboard::arguments(text.args@),
        text.input is Text ==> text.input->Text_0@ == s@,
        text.input is Nothing <==> copied->Ok_0.input is Nothing,
        placed is Ok,
        placed->Ok_0.program@ == gif.program@,
        crate::clipboard::arguments(placed->Ok_0.args@) == crate::clipboard::arguments(gif.args@),
        gif.input is File ==> gif.input->File_0@ == s@,
        gif.input is Nothing <==> placed->Ok_0.input is Nothing,
{
}

/// A copy succeeded exactly if its tool did; if not, the tool is named, and with a GIF
/// what went wrong too.
pub proof fn lemma_copy_outcomes(
    t: ClipboardTool,
    name: &'static str,
    succeeded: bool,
    text: Result<(), String>,
    exit: Exit,
    gif: Result<(), String>,
)
    requires
        call_ensures(ClipboardTool::program, (t,), name),
        call_ensures(crate::clipboard::text_copied, (t, succeeded), text),
        call_ensures(crate::clipboard::gif_copied, (t, exit), gif),
    ensures
        text is Ok <==> succeeded,
        text is Err ==> text->Err_0@ == "clipboard copy via "@ + name@ + " failed"@,
        gif is Ok <==> exit is Success,
        exit is Failure ==> gif->Err_0@ == name@ + " exited with "@ + exit->Failure_0@,
        exit is NotRun ==> gif->Err_0@ == "failed to run "@ + name@ + ": "@ + exit->NotRun_0@,
{
}

/// The temp file of a GIF is named after the process and the time.
pub proof fn lemma_temp_name(process: u32, nanos: u128, r: String)
    requires
        call_ensures(crate::clipboard::temp_gif_name, (process, nanos), r),
    ensures
        r@ == "gifdeck-"@ + decimal(process as nat) + "-"@ + decimal(nanos as nat) + ".gif"@,
        is_digits(decimal(process as nat)),
        is_digits(decimal(nanos as nat)),
{
    crate::text::lemma_decimal_reads_back(process as nat);
    crate::text::lemma_decimal_reads_back(nanos as nat);
}

/// What can be run is a file that someone may execute.
pub proof fn lemma_executable(is_file: bool, mode: u32, r: bool)
    requires
        call_ensures(crate::clipboard::is_executable, (is_file, mode), r),
    ensures
        !is_file ==> !r,
        is_file ==> (r <==> mode & 1 == 1 || mode & 8 == 8 || mode & 64 == 64),
{
    assert(mode & 0o111 != 0 <==> mode & 1 == 1 || mode & 8 == 8 || mode & 64 == 64)
        by (bit_vector);
}

} // verus!
