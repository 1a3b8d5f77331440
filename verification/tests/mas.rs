use omiros::errors::SetupError;
use omiros::mas::{
    check_mas_installed, find_missing_apps, get_installed_apps, install_missing_apps,
    list_command, parse_mas_list_record, App, Mas, MasListParser, MasRecord,
};
use omiros::system_utils::{Command, CommandOutput, Execution};

fn app(name: &str, id: &str) -> App {
    App { name: name.to_string(), id: id.to_string() }
}

fn printed(text: &str) -> Execution {
    Execution::Exited(CommandOutput {
        success: true,
        stdout: text.as_bytes().to_vec(),
        stderr: Vec::new(),
    })
}

fn failed() -> Execution {
    Execution::Exited(CommandOutput { success: false, stdout: Vec::new(), stderr: Vec::new() })
}

fn command_line(program: &str, args: Vec<&str>) -> Command {
    Command { program: program.to_string(), args: args.into_iter().map(|a| a.to_string()).collect() }
}

#[test]
fn parse_mas_list_record_parses_single_word_app_name_correctly() {
    let input = "937984704   Amphetamine  (5.3.2)";
    let expected = App { name: "Amphetamine".to_string(), id: "937984704".to_string() };
    let actual = parse_mas_list_record(input).unwrap();

    assert_eq!(expected, actual);
}

#[test]
fn parse_mas_list_record_parses_name_with_spaces() {
    assert_eq!(
        parse_mas_list_record("946798523  Sleep Control Centre            (2.27)"),
        Ok(app("Sleep Control Centre", "946798523"))
    );
}

#[test]
fn parse_mas_list_record_parses_name_with_parentheses() {
    assert_eq!(
        parse_mas_list_record("1352211125  Tide Alert (NOAA) - Tide Chart  (3.2)"),
        Ok(app("Tide Alert (NOAA) - Tide Chart", "1352211125"))
    );
}

#[test]
fn parse_mas_list_record_parses_name_with_symbols_and_outer_space() {
    assert_eq!(
        parse_mas_list_record("  1491074310  Tetris®                         (7.3.3)  "),
        Ok(app("Tetris®", "1491074310"))
    );
    assert_eq!(
        parse_mas_list_record("   381471023  Flashlight Ⓞ                    (2.3.5) "),
        Ok(app("Flashlight Ⓞ", "381471023"))
    );
    assert_eq!(
        parse_mas_list_record("   890378044  Toy Blast                       (21004) "),
        Ok(app("Toy Blast", "890378044"))
    );
}

#[test]
fn parser_gives_the_version_too() {
    assert_eq!(
        MasListParser::parse("497799835 Xcode (15.4)"),
        Some(MasRecord {
            id: "497799835".to_string(),
            name: "Xcode".to_string(),
            version: "15.4".to_string()
        })
    );
}

#[test]
fn line_without_trailing_version_is_a_parse_error() {
    let line = "937984704   Amphetamine";
    assert_eq!(parse_mas_list_record(line), Err(SetupError::ParseError(line.to_string())));
    let line = "937984704   Amphetamine (5.3.2) beta";
    assert_eq!(parse_mas_list_record(line), Err(SetupError::ParseError(line.to_string())));
}

#[test]
fn line_without_numeric_id_is_a_parse_error() {
    let line = "Amphetamine  (5.3.2)";
    assert_eq!(parse_mas_list_record(line), Err(SetupError::ParseError(line.to_string())));
}

#[test]
fn malformed_lines_are_refused() {
    assert_eq!(MasListParser::parse(""), None);
    assert_eq!(MasListParser::parse("   "), None);
    assert_eq!(MasListParser::parse("123 (1.0)"), None);
    assert_eq!(MasListParser::parse("123 Foo ()"), None);
    assert_eq!(MasListParser::parse("123 Foo(1.0)"), None);
    assert_eq!(MasListParser::parse("123Foo (1.0)"), None);
    assert_eq!(MasListParser::parse("123 Foo (1 0)"), None);
    assert_eq!(MasListParser::parse("123 Foo 1.0)"), None);
    assert_eq!(MasListParser::parse("123 Foo ((1.0)"), None);
    assert_eq!(MasListParser::parse("123 Foo ( (1.0)"), Some(MasRecord {
        id: "123".to_string(),
        name: "Foo (".to_string(),
        version: "1.0".to_string()
    }));
}

#[test]
fn installed_apps_are_read_from_the_listing() {
    let listing = printed("937984704   Amphetamine  (5.3.2)\n497799835 Xcode (15.4)\n");
    let installed = get_installed_apps(&listing).unwrap();
    assert!(installed.apps.contains("937984704"));
    assert!(installed.apps.contains("497799835"));
    assert!(!installed.apps.contains("Xcode"));
    assert_eq!(installed.apps.len(), 2);
}

#[test]
fn one_malformed_line_fails_the_whole_listing() {
    let listing = printed("937984704   Amphetamine  (5.3.2)\nnonsense\n497799835 Xcode (15.4)\n");
    match get_installed_apps(&listing) {
        Err(e) => assert_eq!(e, SetupError::ParseError("nonsense".to_string())),
        Ok(_) => panic!("a malformed line was passed over"),
    }
}

#[test]
fn listing_that_did_not_start_is_an_io_error() {
    match get_installed_apps(&Execution::NotStarted("no such file".to_string())) {
        Err(e) => assert_eq!(e, SetupError::IoError("no such file".to_string())),
        Ok(_) => panic!("a listing that never ran was read"),
    }
}

#[test]
fn listing_that_is_not_utf8_is_a_utf8_error() {
    let listing = Execution::Exited(CommandOutput {
        success: true,
        stdout: vec![0x31, 0xff, 0xfe],
        stderr: Vec::new(),
    });
    match get_installed_apps(&listing) {
        Err(e) => assert_eq!(e, SetupError::Utf8Error),
        Ok(_) => panic!("bytes that are not UTF-8 were read"),
    }
}

#[test]
fn missing_apps_are_found_by_identifier() {
    let desired = Mas {
        apps: vec![app("Amphetamine", "937984704"), app("Xcode", "497799835"), app("Keynote", "409183694")],
    };
    let installed = get_installed_apps(&printed("497799835 Xcode (15.4)\n")).unwrap();
    let missing = find_missing_apps(&desired, &installed);
    assert_eq!(missing.apps, vec![&desired.apps[0], &desired.apps[2]]);
}

#[test]
fn app_under_another_name_counts_as_installed() {
    let desired = Mas { apps: vec![app("Apple Xcode", "497799835")] };
    let installed = get_installed_apps(&printed("497799835 Xcode (15.4)\n")).unwrap();
    assert!(find_missing_apps(&desired, &installed).apps.is_empty());
}

#[test]
fn missing_apps_are_installed_in_order_until_one_fails() {
    let desired = Mas { apps: vec![app("A", "1"), app("B", "2"), app("C", "3")] };
    let installed = get_installed_apps(&printed("")).unwrap();
    let missing = find_missing_apps(&desired, &installed);
    let mut run = install_missing_apps(&missing);
    assert_eq!(run.pending(), Some(command_line("mas", vec!["install", "1"])));
    run.advance(&printed(""));
    assert_eq!(run.pending(), Some(command_line("mas", vec!["install", "2"])));
    assert_eq!(run.outcome(), None);
    run.advance(&failed());
    assert_eq!(run.pending(), None);
    assert!(run.is_finished());
    assert_eq!(run.outcome(), Some(Err(SetupError::MasInstallFailed)));
}

#[test]
fn second_run_installs_no_app() {
    let desired = Mas { apps: vec![app("A", "1"), app("B", "2")] };
    let before = get_installed_apps(&printed("1 A (1.0)\n")).unwrap();
    let missing = find_missing_apps(&desired, &before);
    assert_eq!(missing.apps, vec![&desired.apps[1]]);
    let mut run = install_missing_apps(&missing);
    run.advance(&printed(""));
    assert_eq!(run.outcome(), Some(Ok(())));
    let after = get_installed_apps(&printed("1 A (1.0)\n2 B (2.0)\n")).unwrap();
    let again = install_missing_apps(&find_missing_apps(&desired, &after));
    assert_eq!(again.pending(), None);
    assert_eq!(again.outcome(), Some(Ok(())));
}

#[test]
fn check_mas_installed_passes_the_probe_error_on() {
    assert_eq!(check_mas_installed(&printed("/opt/homebrew/bin/mas\n")), Ok(()));
    assert_eq!(
        check_mas_installed(&failed()),
        Err(SetupError::ProgramFileNotFound("mas".to_string()))
    );
}

#[test]
fn mas_list_command_is_mas_list() {
    assert_eq!(list_command(), command_line("mas", vec!["list"]));
}

#[test]
fn failed_app_listing_is_a_query_error() {
    match get_installed_apps(&failed()) {
        Err(e) => assert_eq!(e, SetupError::QueryFailed(String::new())),
        Ok(_) => panic!("a failed listing was read"),
    }
}
