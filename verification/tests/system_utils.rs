use omiros::errors::SetupError;
use omiros::rustup::{install_rustup, installer_command, InstallerReply, InstallerRequest};
use omiros::shell_installers::ShellInstaller;
use omiros::system_utils::{command, decode, probe, read_lines, Command, CommandOutput, Execution};
use omiros::text::{split_lines, trim_str};

fn ran(success: bool, out: &[u8]) -> Execution {
    Execution::Exited(CommandOutput { success, stdout: out.to_vec(), stderr: Vec::new() })
}

fn line(program: &str, args: Vec<&str>) -> Command {
    Command { program: program.to_string(), args: args.into_iter().map(|a| a.to_string()).collect() }
}

#[test]
fn command_builder_keeps_argument_order() {
    assert_eq!(Command::new("a").arg("b").arg("c"), line("a", vec!["b", "c"]));
    assert_eq!(Command::new("a").duplicate(), line("a", vec![]));
    assert_eq!(line("x", vec!["1", "2", "3"]).duplicate(), line("x", vec!["1", "2", "3"]));
}

#[test]
fn probe_asks_the_shell() {
    assert_eq!(probe("brew"), line("command", vec!["-v", "brew"]));
}

#[test]
fn located_program_is_the_trimmed_output() {
    assert_eq!(command("brew", &ran(true, b"  /opt/homebrew/bin/brew\n")), Ok("/opt/homebrew/bin/brew".to_string()));
    assert_eq!(command("x", &ran(true, "/Users/zoë/bin/x\n".as_bytes())), Ok("/Users/zoë/bin/x".to_string()));
}

#[test]
fn program_that_is_not_there() {
    assert_eq!(command("brew", &ran(false, b"")), Err(SetupError::ProgramFileNotFound("brew".to_string())));
    assert_eq!(
        command("brew", &Execution::NotStarted("no shell".to_string())),
        Err(SetupError::IoError("no shell".to_string()))
    );
    assert_eq!(command("brew", &ran(true, &[0x2f, 0xc0, 0x80])), Err(SetupError::Utf8Error));
}

#[test]
fn decode_accepts_utf8_only() {
    assert_eq!(decode(b"plain"), Some("plain".to_string()));
    assert_eq!(decode("né €".as_bytes()), Some("né €".to_string()));
    assert_eq!(decode(&[]), Some(String::new()));
    assert_eq!(decode(&[0xff]), None);
    assert_eq!(decode(&[0xed, 0xa0, 0x80]), None);
    assert_eq!(decode(&[0xc3]), None);
}

#[test]
fn lines_end_at_line_feeds() {
    assert_eq!(split_lines(""), Vec::<String>::new());
    assert_eq!(split_lines("a"), vec!["a"]);
    assert_eq!(split_lines("a\n"), vec!["a"]);
    assert_eq!(split_lines("a\nb"), vec!["a", "b"]);
    assert_eq!(split_lines("a\r\nb\r\n"), vec!["a", "b"]);
    assert_eq!(split_lines("a\n\nb"), vec!["a", "", "b"]);
    assert_eq!(split_lines("\n"), vec![""]);
    assert_eq!(split_lines("a\r"), vec!["a\r"]);
    assert_eq!(split_lines("a\rb\n"), vec!["a\rb"]);
}

#[test]
fn lines_agree_with_the_standard_library() {
    for text in ["", "x", "x\n", "\n\n", "a\r\n\r\nb", "one\ntwo\r\nthree", "\r\n", "é\nü\n", "a\r"] {
        let expected: Vec<String> = text.lines().map(|l| l.to_string()).collect();
        assert_eq!(split_lines(text), expected);
    }
}

#[test]
fn trim_takes_unicode_white_space_off_both_ends() {
    assert_eq!(trim_str("  a b  "), "a b");
    assert_eq!(trim_str("\u{a0}\u{2003}x\u{3000}\n"), "x");
    assert_eq!(trim_str("   "), "");
    assert_eq!(trim_str(""), "");
    assert_eq!(trim_str("x"), "x");
    assert_eq!(trim_str("\u{200b}x"), "\u{200b}x");
}

#[test]
fn read_lines_refuses_a_program_that_failed() {
    assert_eq!(read_lines(&ran(true, b"a\nb\n")), Ok(vec!["a".to_string(), "b".to_string()]));
    assert_eq!(read_lines(&ran(false, b"a\nb\n")), Err(SetupError::QueryFailed(String::new())));
    let failed = Execution::Exited(CommandOutput {
        success: false,
        stdout: b"half a list\n".to_vec(),
        stderr: b"Error: no such keg".to_vec(),
    });
    assert_eq!(read_lines(&failed), Err(SetupError::QueryFailed("Error: no such keg".to_string())));
    let garbled = Execution::Exited(CommandOutput {
        success: false,
        stdout: Vec::new(),
        stderr: vec![0xff],
    });
    assert_eq!(read_lines(&garbled), Err(SetupError::Utf8Error));
}

#[test]
fn rustup_already_there_is_not_installed_again() {
    let mut run = ShellInstaller::Rustup.install();
    assert_eq!(run.pending(), Some(InstallerRequest::Run(line("command", vec!["-v", "rustup"]))));
    let reply = InstallerReply::Ran(ran(true, b"/Users/me/.cargo/bin/rustup\n"));
    assert!(run.accepts(&reply));
    run.advance(&reply);
    assert_eq!(run.pending(), Some(InstallerRequest::Exists("/Users/me/.cargo/bin/rustup".to_string())));
    assert!(!run.accepts(&reply));
    run.advance(&InstallerReply::Exists(true));
    assert!(run.is_finished());
    assert_eq!(run.outcome(), Some(Ok(())));
}

#[test]
fn rustup_path_that_is_gone_starts_the_installer() {
    let mut run = install_rustup();
    run.advance(&InstallerReply::Ran(ran(true, b"/gone/rustup\n")));
    run.advance(&InstallerReply::Exists(false));
    assert_eq!(run.pending(), Some(InstallerRequest::Run(installer_command())));
    assert_eq!(run.outcome(), None);
    run.advance(&InstallerReply::Ran(ran(false, b"")));
    assert_eq!(
        run.outcome(),
        Some(Err(SetupError::InstallFailed("rustup installation failed".to_string())))
    );
    let mut run = install_rustup();
    run.advance(&InstallerReply::Ran(ran(true, b"/gone/rustup\n")));
    run.advance(&InstallerReply::Exists(false));
    run.advance(&InstallerReply::Ran(ran(true, b"")));
    assert_eq!(run.outcome(), Some(Ok(())));
}

#[test]
fn rustup_that_the_shell_does_not_find_ends_the_run() {
    let mut run = install_rustup();
    run.advance(&InstallerReply::Ran(ran(false, b"")));
    assert_eq!(run.pending(), None);
    assert_eq!(run.outcome(), Some(Err(SetupError::ProgramFileNotFound("rustup".to_string()))));
}

#[test]
fn installer_command_is_the_download_line() {
    assert_eq!(
        installer_command(),
        line(
            "curl",
            vec!["--proto", "'=https'", "--tlsv1.2", "-sSf", "https://sh.rustup.rs", "|", "sh", "-s", "--", "-y"]
        )
    );
}
