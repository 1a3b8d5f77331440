use omiros::errors::SetupError;
use omiros::reconcile::collect_names;
use omiros::system_utils::{Command, CommandOutput, Execution};
use omiros::vscode::{
    get_installed_extensions, list_command, select_missing, ExtensionIdentifier, Vscode,
};

fn ids(list: Vec<&str>) -> Vec<ExtensionIdentifier> {
    list.into_iter().map(|n| ExtensionIdentifier(n.to_string())).collect()
}

fn texts(list: Vec<&str>) -> Vec<String> {
    list.into_iter().map(|n| n.to_string()).collect()
}

fn listing(success: bool, out: &str, err: &str) -> Execution {
    Execution::Exited(CommandOutput {
        success,
        stdout: out.as_bytes().to_vec(),
        stderr: err.as_bytes().to_vec(),
    })
}

#[test]
fn extension_in_other_case_counts_as_installed() {
    let vscode = Vscode { extensions: ids(vec!["Foo.Bar"]) };
    let installed = collect_names(texts(vec!["foo.bar"]));
    assert!(vscode.missing_extensions(&installed).is_empty());
    let run = vscode.install_missing_extensions(&installed);
    assert_eq!(run.pending(), None);
    assert_eq!(run.outcome(), Some(Ok(())));
}

#[test]
fn to_lowercase_lowers_every_letter() {
    assert_eq!(ExtensionIdentifier("Foo.Bar".to_string()).to_lowercase(), ExtensionIdentifier("foo.bar".to_string()));
    assert_eq!(ExtensionIdentifier("ÄB.c".to_string()).to_lowercase().as_str(), "äb.c");
}

#[test]
fn missing_extension_is_installed_in_its_own_case() {
    let vscode = Vscode { extensions: ids(vec!["rust-lang.rust-analyzer", "GitHub.Copilot", "ms-python.python"]) };
    let installed = collect_names(texts(vec!["rust-lang.rust-analyzer"]));
    let missing = vscode.missing_extensions(&installed);
    assert_eq!(missing, vec![&vscode.extensions[1], &vscode.extensions[2]]);
    let mut run = vscode.install_missing_extensions(&installed);
    assert_eq!(
        run.pending(),
        Some(Command {
            program: "code".to_string(),
            args: texts(vec!["--install-extension", "GitHub.Copilot"])
        })
    );
    run.advance(&listing(false, "", ""));
    assert_eq!(
        run.outcome(),
        Some(Err(SetupError::InstallFailed(
            "vscode extension install failed: GitHub.Copilot".to_string()
        )))
    );
}

#[test]
fn select_missing_goes_by_the_given_keys() {
    let extensions = ids(vec!["A.b", "C.d", "E.f"]);
    let keys = texts(vec!["a.b", "c.d", "e.f"]);
    let installed = collect_names(texts(vec!["c.d"]));
    assert_eq!(select_missing(&extensions, &keys, &installed), vec![&extensions[0], &extensions[2]]);
    let unlowered = texts(vec!["A.b", "c.d", "E.f"]);
    let installed = collect_names(texts(vec!["a.b", "c.d", "e.f"]));
    assert_eq!(select_missing(&extensions, &unlowered, &installed), vec![&extensions[0], &extensions[2]]);
}

#[test]
fn installed_extensions_are_trimmed_lines() {
    let set = get_installed_extensions(&listing(true, "foo.bar\n  baz.qux \r\n", "")).unwrap();
    assert!(set.contains("foo.bar"));
    assert!(set.contains("baz.qux"));
    assert_eq!(set.len(), 2);
}

#[test]
fn failed_extension_listing_reports_stderr() {
    match get_installed_extensions(&listing(false, "", "code: command crashed")) {
        Err(e) => assert_eq!(
            e,
            SetupError::InstallFailed(
                "Failed to get installed VS Code extensions: code: command crashed".to_string()
            )
        ),
        Ok(_) => panic!("a failed listing was read"),
    }
}

#[test]
fn extension_listing_errors() {
    match get_installed_extensions(&Execution::NotStarted("gone".to_string())) {
        Err(e) => assert_eq!(e, SetupError::IoError("gone".to_string())),
        Ok(_) => panic!("a listing that never ran was read"),
    }
    let garbled = Execution::Exited(CommandOutput { success: true, stdout: vec![0x80], stderr: Vec::new() });
    match get_installed_extensions(&garbled) {
        Err(e) => assert_eq!(e, SetupError::Utf8Error),
        Ok(_) => panic!("bytes that are not UTF-8 were read"),
    }
}

#[test]
fn extension_list_command() {
    assert_eq!(
        list_command(),
        Command { program: "code".to_string(), args: texts(vec!["--list-extensions"]) }
    );
}
