use gifdeck::clipboard::{
    copy_text, gif_copied, is_executable, place_gif_on_clipboard, temp_gif_name, text_copied,
    ClipboardTool, Exit, Input,
};

#[test]
fn wl_copy_gif_command_reads_gif_type_from_stdin() {
    let cmd = ClipboardTool::WlCopy.gif_command("/tmp/x.gif");
    assert_eq!(cmd.program, "wl-copy");
    assert_eq!(cmd.args, vec!["--type", "image/gif"]);
    // The file is attached via stdin, never as an argument.
    assert!(!cmd.args.iter().any(|a| a.contains("x.gif")));
    assert!(matches!(cmd.input, Input::File(f) if f == "/tmp/x.gif"));
}

#[test]
fn xclip_gif_command_passes_the_file() {
    let cmd = ClipboardTool::Xclip.gif_command("/tmp/y.gif");
    assert_eq!(cmd.program, "xclip");
    assert_eq!(
        cmd.args,
        vec![
            "-selection",
            "clipboard",
            "-t",
            "image/gif",
            "-i",
            "/tmp/y.gif"
        ]
    );
    assert!(matches!(cmd.input, Input::Nothing));
}

#[test]
fn detect_prefers_wl_copy() {
    assert_eq!(ClipboardTool::detect(true, true), Some(ClipboardTool::WlCopy));
    assert_eq!(ClipboardTool::detect(true, false), Some(ClipboardTool::WlCopy));
    assert_eq!(ClipboardTool::detect(false, true), Some(ClipboardTool::Xclip));
    assert_eq!(ClipboardTool::detect(false, false), None);
}

#[test]
fn text_commands() {
    let cmd = copy_text(Some(ClipboardTool::WlCopy), "https://x").unwrap();
    assert_eq!((cmd.program, cmd.args), ("wl-copy", vec!["https://x".to_string()]));
    assert!(matches!(cmd.input, Input::Nothing));
    let cmd = copy_text(Some(ClipboardTool::Xclip), "https://x").unwrap();
    assert_eq!(cmd.program, "xclip");
    assert_eq!(cmd.args, vec!["-selection", "clipboard"]);
    assert!(matches!(cmd.input, Input::Text(t) if t == "https://x"));
}

#[test]
fn no_tool_is_an_error() {
    let said = "no clipboard tool found (install wl-copy or xclip)";
    assert_eq!(copy_text(None, "x").unwrap_err(), said);
    assert_eq!(place_gif_on_clipboard(None, "x").unwrap_err(), said);
    assert_eq!(
        place_gif_on_clipboard(Some(ClipboardTool::Xclip), "f").unwrap().program,
        "xclip"
    );
}

#[test]
fn outcomes_are_described() {
    assert_eq!(text_copied(ClipboardTool::WlCopy, true), Ok(()));
    assert_eq!(
        text_copied(ClipboardTool::WlCopy, false).unwrap_err(),
        "clipboard copy via wl-copy failed"
    );
    assert_eq!(gif_copied(ClipboardTool::Xclip, Exit::Success), Ok(()));
    assert_eq!(
        gif_copied(ClipboardTool::Xclip, Exit::Failure("exit status: 1".into())).unwrap_err(),
        "xclip exited with exit status: 1"
    );
    assert_eq!(
        gif_copied(ClipboardTool::WlCopy, Exit::NotRun("no such file".into())).unwrap_err(),
        "failed to run wl-copy: no such file"
    );
}

#[test]
fn temp_names_hold_process_and_time() {
    assert_eq!(temp_gif_name(42, 1_700_000_000_123), "gifdeck-42-1700000000123.gif");
}

#[test]
fn executables_are_files_that_someone_may_run() {
    assert!(is_executable(true, 0o100755));
    assert!(is_executable(true, 0o100001));
    assert!(!is_executable(true, 0o100644));
    assert!(!is_executable(false, 0o040755));
}
