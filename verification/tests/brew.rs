use omiros::brew::{
    check_brew_installed, find_missing_packages, get_installed_brew_packages,
    install_missing_packages, list_casks_command, list_formulae_command, Brew,
    InstalledBrewPackages,
};
use omiros::errors::SetupError;
use omiros::reconcile::{collect_names, find_missing};
use omiros::system_utils::{Command, CommandOutput, Execution};

fn names(list: Vec<&str>) -> Vec<String> {
    list.into_iter().map(|n| n.to_string()).collect()
}

fn installed(formulae: Vec<&str>, casks: Vec<&str>) -> InstalledBrewPackages {
    InstalledBrewPackages { formulae: collect_names(names(formulae)), casks: collect_names(names(casks)) }
}

fn ran(success: bool, text: &str) -> Execution {
    Execution::Exited(CommandOutput { success, stdout: text.as_bytes().to_vec(), stderr: Vec::new() })
}

fn line(program: &str, args: Vec<&str>) -> Command {
    Command { program: program.to_string(), args: names(args) }
}

#[test]
fn missing_packages_keep_the_wanted_order() {
    let desired = Brew {
        formulae: Some(names(vec!["zsh", "git", "ripgrep", "fd"])),
        casks: Some(names(vec!["firefox", "iterm2"])),
    };
    let have = installed(vec!["git", "fd"], vec!["iterm2"]);
    let missing = find_missing_packages(&desired, &have);
    assert_eq!(missing.formulae, vec!["zsh", "ripgrep"]);
    assert_eq!(missing.casks, vec!["firefox"]);
}

#[test]
fn wanted_twice_is_missing_twice() {
    let desired = Brew { formulae: Some(names(vec!["a", "a", "b"])), casks: None };
    let missing = find_missing_packages(&desired, &installed(vec![], vec![]));
    assert_eq!(missing.formulae, vec!["a", "a", "b"]);
    let missing = find_missing_packages(&desired, &installed(vec!["a"], vec![]));
    assert_eq!(missing.formulae, vec!["b"]);
    let missing = find_missing_packages(&desired, &installed(vec!["b"], vec![]));
    assert_eq!(missing.formulae, vec!["a", "a"]);
}

#[test]
fn names_are_compared_to_the_letter() {
    let desired = Brew { formulae: Some(names(vec!["Git", "git "])), casks: None };
    let missing = find_missing_packages(&desired, &installed(vec!["git"], vec![]));
    assert_eq!(missing.formulae, vec!["Git", "git "]);
}

#[test]
fn formulae_and_casks_are_looked_up_apart() {
    let desired = Brew { formulae: Some(names(vec!["docker"])), casks: Some(names(vec!["docker"])) };
    let missing = find_missing_packages(&desired, &installed(vec!["docker"], vec![]));
    assert!(missing.formulae.is_empty());
    assert_eq!(missing.casks, vec!["docker"]);
}

#[test]
fn nothing_wanted_is_nothing_missing() {
    let desired = Brew { formulae: None, casks: Some(Vec::new()) };
    let missing = find_missing_packages(&desired, &installed(vec!["git"], vec![]));
    assert!(missing.formulae.is_empty());
    assert!(missing.casks.is_empty());
}

#[test]
fn generic_find_missing_returns_the_wanted_items_themselves() {
    let desired = names(vec!["x", "y", "x"]);
    let have = collect_names(names(vec!["y"]));
    let missing = find_missing(&desired, &have);
    assert_eq!(missing, vec![&desired[0], &desired[2]]);
}

#[test]
fn installed_packages_are_read_from_both_listings() {
    let have = get_installed_brew_packages(&ran(true, "git\nfd\r\nzsh"), &ran(true, "firefox\n")).unwrap();
    assert!(have.formulae.contains("git"));
    assert!(have.formulae.contains("fd"));
    assert!(have.formulae.contains("zsh"));
    assert_eq!(have.formulae.len(), 3);
    assert!(have.casks.contains("firefox"));
    assert!(!have.casks.contains("git"));
}

#[test]
fn listing_error_of_formulae_comes_first() {
    let bad = Execution::NotStarted("brew: not found".to_string());
    let worse = Execution::Exited(CommandOutput { success: true, stdout: vec![0xc3, 0x28], stderr: Vec::new() });
    match get_installed_brew_packages(&bad, &worse) {
        Err(e) => assert_eq!(e, SetupError::IoError("brew: not found".to_string())),
        Ok(_) => panic!("a listing that never ran was read"),
    }
    match get_installed_brew_packages(&ran(true, "git\n"), &worse) {
        Err(e) => assert_eq!(e, SetupError::Utf8Error),
        Ok(_) => panic!("bytes that are not UTF-8 were read"),
    }
}

#[test]
fn check_brew_installed_reports_brew_not_found() {
    assert_eq!(check_brew_installed(&ran(true, "/opt/homebrew/bin/brew\n")), Ok(()));
    assert_eq!(check_brew_installed(&ran(false, "")), Err(SetupError::BrewNotFound));
    assert_eq!(
        check_brew_installed(&Execution::NotStarted("sh missing".to_string())),
        Err(SetupError::BrewNotFound)
    );
}

#[test]
fn packages_are_installed_formulae_first() {
    let desired = Brew { formulae: Some(names(vec!["git", "fd"])), casks: Some(names(vec!["firefox"])) };
    let have = installed(vec![], vec![]);
    let missing = find_missing_packages(&desired, &have);
    let mut run = install_missing_packages(&missing);
    let mut asked = Vec::new();
    while let Some(command) = run.pending() {
        asked.push(command);
        run.advance(&ran(true, ""));
    }
    assert_eq!(
        asked,
        vec![
            line("brew", vec!["install", "git"]),
            line("brew", vec!["install", "fd"]),
            line("brew", vec!["install", "--cask", "firefox"]),
        ]
    );
    assert_eq!(run.outcome(), Some(Ok(())));
}

#[test]
fn failed_install_stops_the_rest() {
    let desired = Brew { formulae: Some(names(vec!["git", "fd"])), casks: Some(names(vec!["firefox"])) };
    let have = installed(vec![], vec![]);
    let missing = find_missing_packages(&desired, &have);
    let mut run = install_missing_packages(&missing);
    run.advance(&ran(false, ""));
    assert_eq!(run.pending(), None);
    assert_eq!(run.outcome(), Some(Err(SetupError::BrewInstallFailed)));
    run.advance(&ran(true, ""));
    assert_eq!(run.outcome(), Some(Err(SetupError::BrewInstallFailed)));
}

#[test]
fn install_that_did_not_start_is_an_io_error() {
    let desired = Brew { formulae: Some(names(vec!["git"])), casks: None };
    let have = installed(vec![], vec![]);
    let missing = find_missing_packages(&desired, &have);
    let mut run = install_missing_packages(&missing);
    run.advance(&Execution::NotStarted("permission denied".to_string()));
    assert_eq!(run.outcome(), Some(Err(SetupError::IoError("permission denied".to_string()))));
}

#[test]
fn second_run_installs_no_package() {
    let desired = Brew { formulae: Some(names(vec!["git", "fd", "git"])), casks: None };
    let first = find_missing_packages(&desired, &installed(vec!["fd"], vec![])).formulae.len();
    assert_eq!(first, 2);
    let have = installed(vec!["fd", "git"], vec![]);
    let missing = find_missing_packages(&desired, &have);
    let run = install_missing_packages(&missing);
    assert_eq!(run.pending(), None);
    assert_eq!(run.outcome(), Some(Ok(())));
}

#[test]
fn brew_listing_commands() {
    assert_eq!(list_formulae_command(), line("brew", vec!["leaves"]));
    assert_eq!(list_casks_command(), line("brew", vec!["list", "--casks"]));
}

#[test]
fn failed_listing_is_a_query_error() {
    let failed = Execution::Exited(CommandOutput {
        success: false,
        stdout: b"git\n".to_vec(),
        stderr: b"brew: broken".to_vec(),
    });
    match get_installed_brew_packages(&failed, &ran(true, "firefox\n")) {
        Err(e) => assert_eq!(e, SetupError::QueryFailed("brew: broken".to_string())),
        Ok(_) => panic!("a failed listing was read"),
    }
    match get_installed_brew_packages(&ran(true, "git\n"), &failed) {
        Err(e) => assert_eq!(e, SetupError::QueryFailed("brew: broken".to_string())),
        Ok(_) => panic!("a failed listing was read"),
    }
}
