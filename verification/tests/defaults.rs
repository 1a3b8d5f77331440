use omiros::decimal::{format_i32, parse_i32};
use omiros::defaults::{
    read_command, read_defaults, restart_command, restart_outcome, write_defaults, write_outcome,
    DefaultsError, DefaultsType, DockOrientation, MouseButtonMode, Setting, SettingValue,
    SettingsRun,
};
use omiros::macos::{
    apply_dock_group_settings, apply_dock_settings, apply_finder_settings, apply_magic_mouse_settings,
    apply_mission_control_settings, apply_safari_settings, apply_system_settings, restart_dock,
    Dock, Finder, MagicMouse, MissionControl, Safari, SystemSettings,
};
use omiros::system_utils::{Command, CommandOutput, Execution};
use std::collections::BTreeMap;

fn chars(s: &str) -> Vec<char> {
    s.chars().collect()
}

fn printed(text: &str) -> Execution {
    Execution::Exited(CommandOutput {
        success: true,
        stdout: text.as_bytes().to_vec(),
        stderr: Vec::new(),
    })
}

fn failed() -> Execution {
    Execution::Exited(CommandOutput { success: false, stdout: Vec::new(), stderr: Vec::new() })
}

fn line(program: &str, args: Vec<&str>) -> Command {
    Command { program: program.to_string(), args: args.into_iter().map(|a| a.to_string()).collect() }
}

#[test]
fn numbers_are_written_in_decimal() {
    assert_eq!(format_i32(0), "0");
    assert_eq!(format_i32(7), "7");
    assert_eq!(format_i32(48), "48");
    assert_eq!(format_i32(-15), "-15");
    assert_eq!(format_i32(i32::MAX), "2147483647");
    assert_eq!(format_i32(i32::MIN), "-2147483648");
}

#[test]
fn numbers_are_read_from_decimal() {
    assert_eq!(parse_i32(&chars("0")), Some(0));
    assert_eq!(parse_i32(&chars("48")), Some(48));
    assert_eq!(parse_i32(&chars("+48")), Some(48));
    assert_eq!(parse_i32(&chars("-15")), Some(-15));
    assert_eq!(parse_i32(&chars("007")), Some(7));
    assert_eq!(parse_i32(&chars("-0")), Some(0));
    assert_eq!(parse_i32(&chars("2147483647")), Some(i32::MAX));
    assert_eq!(parse_i32(&chars("-2147483648")), Some(i32::MIN));
}

#[test]
fn what_is_no_number_is_refused() {
    assert_eq!(parse_i32(&chars("")), None);
    assert_eq!(parse_i32(&chars("-")), None);
    assert_eq!(parse_i32(&chars("+")), None);
    assert_eq!(parse_i32(&chars("4 8")), None);
    assert_eq!(parse_i32(&chars(" 48")), None);
    assert_eq!(parse_i32(&chars("48x")), None);
    assert_eq!(parse_i32(&chars("--4")), None);
    assert_eq!(parse_i32(&chars("2147483648")), None);
    assert_eq!(parse_i32(&chars("-2147483649")), None);
    assert_eq!(parse_i32(&chars("99999999999999999999999999")), None);
    assert_eq!(parse_i32(&chars("٣")), None);
}

#[test]
fn written_numbers_are_read_back() {
    for v in [0, 1, -1, 9, 10, 11, 99, 100, -100, 12345, i32::MAX, i32::MIN, i32::MIN + 1] {
        assert_eq!(parse_i32(&chars(&format_i32(v))), Some(v));
        assert_eq!(format_i32(v), format!("{}", v));
    }
}

#[test]
fn booleans_are_read_in_either_spelling_and_case() {
    assert_eq!(<bool as DefaultsType>::parse_output("1"), Ok(true));
    assert_eq!(<bool as DefaultsType>::parse_output("true"), Ok(true));
    assert_eq!(<bool as DefaultsType>::parse_output("TRUE"), Ok(true));
    assert_eq!(<bool as DefaultsType>::parse_output("True"), Ok(true));
    assert_eq!(<bool as DefaultsType>::parse_output("0"), Ok(false));
    assert_eq!(<bool as DefaultsType>::parse_output("false"), Ok(false));
    assert_eq!(<bool as DefaultsType>::parse_output("FaLsE"), Ok(false));
}

#[test]
fn booleans_are_written_in_small_letters() {
    assert_eq!(true.serialize(), "true");
    assert_eq!(false.serialize(), "false");
    assert_eq!(<bool as DefaultsType>::type_flag(), "-bool");
}

#[test]
fn what_is_no_boolean_is_a_parse_error() {
    assert_eq!(
        <bool as DefaultsType>::parse_output("yes"),
        Err(DefaultsError::ParseError("Unable to parse yes as -bool".to_string()))
    );
    assert_eq!(
        <bool as DefaultsType>::parse_output("2"),
        Err(DefaultsError::ParseError("Unable to parse 2 as -bool".to_string()))
    );
    assert_eq!(
        <bool as DefaultsType>::parse_output(""),
        Err(DefaultsError::ParseError("Unable to parse  as -bool".to_string()))
    );
}

#[test]
fn integers_have_their_flag_and_error() {
    assert_eq!(<i32 as DefaultsType>::type_flag(), "-int");
    assert_eq!(<i32 as DefaultsType>::parse_output("36"), Ok(36));
    assert_eq!(
        <i32 as DefaultsType>::parse_output("3.5"),
        Err(DefaultsError::ParseError("Could not parse: 3.5".to_string()))
    );
    assert_eq!(36.serialize(), "36");
}

#[test]
fn dock_orientation_is_one_of_three_words() {
    assert_eq!(DockOrientation::parse_output("left"), Ok(DockOrientation::Left));
    assert_eq!(DockOrientation::parse_output("bottom"), Ok(DockOrientation::Bottom));
    assert_eq!(DockOrientation::parse_output("right"), Ok(DockOrientation::Right));
    assert_eq!(
        DockOrientation::parse_output("Left"),
        Err(DefaultsError::ParseError("Could not parse output: Left".to_string()))
    );
    assert_eq!(DockOrientation::Left.serialize(), "left");
    assert_eq!(DockOrientation::Bottom.serialize(), "bottom");
    assert_eq!(DockOrientation::Right.serialize(), "right");
    assert_eq!(DockOrientation::type_flag(), "-string");
}

#[test]
fn mouse_button_mode_is_one_of_two_words() {
    assert_eq!(MouseButtonMode::parse_output("OneButton"), Ok(MouseButtonMode::OneButton));
    assert_eq!(MouseButtonMode::parse_output("TwoButton"), Ok(MouseButtonMode::TwoButton));
    assert_eq!(
        MouseButtonMode::parse_output("ThreeButton"),
        Err(DefaultsError::ParseError("Could not parse output: ThreeButton".to_string()))
    );
    assert_eq!(MouseButtonMode::TwoButton.serialize(), "TwoButton");
    assert_eq!(MouseButtonMode::OneButton.serialize(), "OneButton");
}

#[test]
fn every_kind_reads_back_what_it_writes() {
    for v in [true, false] {
        assert_eq!(<bool as DefaultsType>::parse_output(&v.serialize()), Ok(v));
    }
    for v in [DockOrientation::Left, DockOrientation::Bottom, DockOrientation::Right] {
        assert_eq!(DockOrientation::parse_output(&v.serialize()), Ok(v));
    }
    for v in [MouseButtonMode::OneButton, MouseButtonMode::TwoButton] {
        assert_eq!(MouseButtonMode::parse_output(&v.serialize()), Ok(v));
    }
    for v in [-7, 0, 48] {
        assert_eq!(<i32 as DefaultsType>::parse_output(&v.serialize()), Ok(v));
    }
}

#[test]
fn stored_value_is_read_with_ascii_space_taken_off() {
    assert_eq!(read_defaults::<i32>(&printed("48\n")), Ok(Some(48)));
    assert_eq!(read_defaults::<bool>(&printed(" 1 \t\r\n")), Ok(Some(true)));
    assert_eq!(read_defaults::<DockOrientation>(&printed("left\n")), Ok(Some(DockOrientation::Left)));
}

#[test]
fn failed_read_means_never_set() {
    assert_eq!(read_defaults::<bool>(&failed()), Ok(None));
}

#[test]
fn read_errors() {
    assert_eq!(
        read_defaults::<bool>(&Execution::NotStarted("no defaults".to_string())),
        Err(DefaultsError::CommandFailed("Failed to execute defaults read: no defaults".to_string()))
    );
    assert_eq!(
        read_defaults::<i32>(&printed("many\n")),
        Err(DefaultsError::ParseError("Could not parse: many".to_string()))
    );
    let garbled = Execution::Exited(CommandOutput { success: true, stdout: vec![0xff], stderr: Vec::new() });
    assert_eq!(read_defaults::<i32>(&garbled), Err(DefaultsError::Utf8Error));
    assert_eq!(
        read_defaults::<bool>(&printed("\u{a0}1")),
        Err(DefaultsError::ParseError("Unable to parse \u{a0}1 as -bool".to_string()))
    );
}

#[test]
fn same_value_is_not_written() {
    assert_eq!(write_defaults("com.apple.dock", "autohide", true, &printed("1\n")), Ok(None));
    assert_eq!(write_defaults("com.apple.dock", "autohide", true, &printed("true\n")), Ok(None));
    assert_eq!(write_defaults("com.apple.dock", "tilesize", 48, &printed("48\n")), Ok(None));
}

#[test]
fn other_value_is_written() {
    assert_eq!(
        write_defaults("com.apple.dock", "autohide", true, &printed("0\n")),
        Ok(Some(line("defaults", vec!["write", "com.apple.dock", "autohide", "-bool", "true"])))
    );
    assert_eq!(
        write_defaults("com.apple.dock", "tilesize", -3, &printed("48\n")),
        Ok(Some(line("defaults", vec!["write", "com.apple.dock", "tilesize", "-int", "-3"])))
    );
    assert_eq!(
        write_defaults("com.apple.dock", "orientation", DockOrientation::Left, &printed("bottom\n")),
        Ok(Some(line("defaults", vec!["write", "com.apple.dock", "orientation", "-string", "left"])))
    );
}

#[test]
fn value_never_set_is_written() {
    assert_eq!(
        write_defaults("com.apple.dock", "autohide", false, &failed()),
        Ok(Some(line("defaults", vec!["write", "com.apple.dock", "autohide", "-bool", "false"])))
    );
}

#[test]
fn malformed_stored_value_is_not_overwritten() {
    assert_eq!(
        write_defaults("com.apple.dock", "autohide", true, &printed("maybe\n")),
        Err(DefaultsError::ParseError("Unable to parse maybe as -bool".to_string()))
    );
}

#[test]
fn write_then_write_again_is_unchanged() {
    let first = write_defaults("d", "k", 12, &failed()).unwrap().unwrap();
    assert_eq!(write_outcome("d", "k", &printed("")), Ok(true));
    let stored = first.args[4].clone();
    assert_eq!(write_defaults("d", "k", 12, &printed(&format!("{}\n", stored))), Ok(None));
}

#[test]
fn write_outcomes() {
    assert_eq!(write_outcome("d", "k", &printed("")), Ok(true));
    assert_eq!(
        write_outcome("com.apple.dock", "autohide", &failed()),
        Err(DefaultsError::CommandFailed(
            "defaults write failed for com.apple.dock.autohide".to_string()
        ))
    );
    assert_eq!(
        write_outcome("d", "k", &Execution::NotStarted("gone".to_string())),
        Err(DefaultsError::CommandFailed("Failed to execute defaults write: gone".to_string()))
    );
}

#[test]
fn restart_is_killall_and_its_failure_is_an_error() {
    assert_eq!(restart_command("Dock"), line("killall", vec!["Dock"]));
    assert_eq!(restart_dock(), line("killall", vec!["Dock"]));
    assert_eq!(restart_outcome("Dock", &printed("")), Ok(()));
    assert_eq!(
        restart_outcome("Dock", &failed()),
        Err(DefaultsError::CommandFailed("killall Dock failed".to_string()))
    );
    assert_eq!(
        restart_outcome("Dock", &Execution::NotStarted("gone".to_string())),
        Err(DefaultsError::CommandFailed("failed to kill Dock gone".to_string()))
    );
}

#[test]
fn read_command_is_defaults_read() {
    assert_eq!(read_command("NSGlobalDomain", "KeyRepeat"), line("defaults", vec!["read", "NSGlobalDomain", "KeyRepeat"]));
}

struct Store {
    values: BTreeMap<(String, String), String>,
    log: Vec<Command>,
    fail_writes: bool,
}

fn store(values: Vec<(&str, &str, &str)>) -> Store {
    let mut map = BTreeMap::new();
    for (d, k, v) in values {
        map.insert((d.to_string(), k.to_string()), v.to_string());
    }
    Store { values: map, log: Vec::new(), fail_writes: false }
}

fn execute(s: &mut Store, command: &Command) -> Execution {
    s.log.push(command.clone());
    if command.program == "killall" {
        return printed("");
    }
    assert_eq!(command.program, "defaults");
    let key = (command.args[1].clone(), command.args[2].clone());
    if command.args[0] == "read" {
        match s.values.get(&key) {
            Some(v) => printed(&format!("{}\n", v)),
            None => failed(),
        }
    } else {
        assert_eq!(command.args[0], "write");
        if s.fail_writes {
            return failed();
        }
        let shown = match (command.args[3].as_str(), command.args[4].as_str()) {
            ("-bool", "true") => "1".to_string(),
            ("-bool", "false") => "0".to_string(),
            (_, v) => v.to_string(),
        };
        s.values.insert(key, shown);
        printed("")
    }
}

fn carry_out(run: &mut SettingsRun, s: &mut Store) -> Result<bool, DefaultsError> {
    while let Some(command) = run.pending() {
        let reply = execute(s, &command);
        run.advance(&reply);
    }
    assert!(run.is_finished());
    run.outcome().unwrap()
}

fn writes(s: &Store) -> Vec<&Command> {
    s.log.iter().filter(|c| c.program == "defaults" && c.args[0] == "write").collect()
}

fn restarts(s: &Store) -> Vec<&Command> {
    s.log.iter().filter(|c| c.program == "killall").collect()
}

fn full_dock() -> Dock {
    Dock {
        orientation: Some(DockOrientation::Left),
        autohide: Some(true),
        icon_size: Some(36),
        transparent_hidden_app_icons: Some(false),
    }
}

#[test]
fn dock_settings_are_written_in_order_where_they_differ() {
    let mut s = store(vec![("com.apple.dock", "autohide", "1"), ("com.apple.dock", "tilesize", "48")]);
    let mut run = apply_dock_settings(&full_dock());
    assert_eq!(carry_out(&mut run, &mut s), Ok(true));
    assert_eq!(
        s.log,
        vec![
            line("defaults", vec!["read", "com.apple.dock", "orientation"]),
            line("defaults", vec!["write", "com.apple.dock", "orientation", "-string", "left"]),
            line("defaults", vec!["read", "com.apple.dock", "autohide"]),
            line("defaults", vec!["read", "com.apple.dock", "tilesize"]),
            line("defaults", vec!["write", "com.apple.dock", "tilesize", "-int", "36"]),
            line("defaults", vec!["read", "com.apple.dock", "showhidden"]),
            line("defaults", vec!["write", "com.apple.dock", "showhidden", "-bool", "false"]),
        ]
    );
}

#[test]
fn second_run_over_settings_writes_nothing() {
    let mut s = store(vec![]);
    let mut first = apply_dock_settings(&full_dock());
    assert_eq!(carry_out(&mut first, &mut s), Ok(true));
    assert_eq!(writes(&s).len(), 4);
    s.log.clear();
    let mut second = apply_dock_settings(&full_dock());
    assert_eq!(carry_out(&mut second, &mut s), Ok(false));
    assert!(writes(&s).is_empty());
    assert!(restarts(&s).is_empty());
    assert_eq!(s.log.len(), 4);
}

#[test]
fn settings_left_out_are_not_touched() {
    let mut s = store(vec![]);
    let dock = Dock { orientation: None, autohide: None, icon_size: Some(40), transparent_hidden_app_icons: None };
    let mut run = apply_dock_settings(&dock);
    assert_eq!(carry_out(&mut run, &mut s), Ok(true));
    assert_eq!(s.log.len(), 2);
    let nothing = Dock { orientation: None, autohide: None, icon_size: None, transparent_hidden_app_icons: None };
    let mut run = apply_dock_settings(&nothing);
    assert!(run.is_finished());
    assert_eq!(run.pending(), None);
    assert_eq!(carry_out(&mut run, &mut s), Ok(false));
}

#[test]
fn mission_control_settings_go_to_the_dock_domain() {
    let mut s = store(vec![("com.apple.dock", "mru-spaces", "0")]);
    let mc = MissionControl { automatically_rearrange_spaces: Some(false), group_apps: Some(true) };
    let mut run = apply_mission_control_settings(&mc);
    assert_eq!(carry_out(&mut run, &mut s), Ok(true));
    assert_eq!(
        writes(&s),
        vec![&line("defaults", vec!["write", "com.apple.dock", "expose-group-apps", "-bool", "true"])]
    );
    assert!(restarts(&s).is_empty());
}

#[test]
fn safari_is_restarted_once_after_a_change() {
    let mut s = store(vec![]);
    let safari = Safari { show_full_url: Some(true) };
    let mut run = apply_safari_settings(&safari);
    assert_eq!(carry_out(&mut run, &mut s), Ok(true));
    assert_eq!(s.log.last(), Some(&line("killall", vec!["Safari"])));
    assert_eq!(restarts(&s).len(), 1);
    s.log.clear();
    let mut again = apply_safari_settings(&safari);
    assert_eq!(carry_out(&mut again, &mut s), Ok(false));
    assert!(restarts(&s).is_empty());
}

#[test]
fn finder_is_restarted_once_after_all_writes() {
    let mut s = store(vec![]);
    let finder = Finder { show_pathbar: Some(true), show_full_posix_path_in_title_bar: Some(true) };
    let mut run = apply_finder_settings(&finder);
    assert_eq!(carry_out(&mut run, &mut s), Ok(true));
    assert_eq!(writes(&s).len(), 2);
    assert_eq!(restarts(&s), vec![&line("killall", vec!["Finder"])]);
    assert_eq!(s.log.len(), 5);
    assert_eq!(s.log[4], line("killall", vec!["Finder"]));
}

#[test]
fn system_settings_restart_finder_only_for_file_extensions() {
    let system = SystemSettings {
        show_file_extensions: Some(true),
        natural_scrolling: Some(false),
        key_press_and_hold: Some(false),
        initial_key_repeat_wait: Some(15),
        key_repeat_rate: Some(2),
        automatic_capitalization: Some(false),
    };
    let mut s = store(vec![("NSGlobalDomain", "AppleShowAllExtensions", "1")]);
    let mut run = apply_system_settings(&system);
    assert_eq!(carry_out(&mut run, &mut s), Ok(false));
    assert_eq!(writes(&s).len(), 5);
    assert!(restarts(&s).is_empty());
    let mut s = store(vec![]);
    let mut run = apply_system_settings(&system);
    assert_eq!(carry_out(&mut run, &mut s), Ok(true));
    assert_eq!(writes(&s).len(), 6);
    assert_eq!(restarts(&s).len(), 1);
    assert_eq!(s.log.last(), Some(&line("killall", vec!["Finder"])));
    assert_eq!(
        writes(&s)[3],
        &line("defaults", vec!["write", "NSGlobalDomain", "InitialKeyRepeat", "-int", "15"])
    );
}

#[test]
fn magic_mouse_setting_is_written_without_restart() {
    let mut s = store(vec![]);
    let mouse = MagicMouse { mouse_button_mode: Some(MouseButtonMode::TwoButton) };
    let mut run = apply_magic_mouse_settings(&mouse);
    assert_eq!(carry_out(&mut run, &mut s), Ok(false));
    assert_eq!(
        writes(&s),
        vec![&line(
            "defaults",
            vec!["write", "com.apple.AppleMultitouchMouse", "MouseButtonMode", "-string", "TwoButton"]
        )]
    );
    assert!(restarts(&s).is_empty());
}

#[test]
fn failed_write_stops_the_run_without_restart() {
    let mut s = store(vec![]);
    s.fail_writes = true;
    let finder = Finder { show_pathbar: Some(true), show_full_posix_path_in_title_bar: Some(true) };
    let mut run = apply_finder_settings(&finder);
    assert_eq!(
        carry_out(&mut run, &mut s),
        Err(DefaultsError::CommandFailed(
            "defaults write failed for com.apple.finder.ShowPathbar".to_string()
        ))
    );
    assert_eq!(s.log.len(), 2);
    assert!(restarts(&s).is_empty());
}

#[test]
fn restart_that_did_not_start_fails_the_run() {
    let settings = vec![Setting {
        domain: "d".to_string(),
        key: "k".to_string(),
        value: SettingValue::Bool(true),
        restarts: true,
    }];
    let mut run = SettingsRun::new(settings, Some("Thing".to_string()));
    assert_eq!(run.pending(), Some(line("defaults", vec!["read", "d", "k"])));
    run.advance(&failed());
    assert_eq!(run.pending(), Some(line("defaults", vec!["write", "d", "k", "-bool", "true"])));
    run.advance(&printed(""));
    assert_eq!(run.pending(), Some(line("killall", vec!["Thing"])));
    assert_eq!(run.outcome(), None);
    run.advance(&Execution::NotStarted("gone".to_string()));
    assert_eq!(
        run.outcome(),
        Some(Err(DefaultsError::CommandFailed("failed to kill Thing gone".to_string())))
    );
    run.advance(&printed(""));
    assert_eq!(run.pending(), None);
}

#[test]
fn setting_decides_by_its_kind() {
    let setting = Setting {
        domain: "d".to_string(),
        key: "k".to_string(),
        value: SettingValue::Int(5),
        restarts: false,
    };
    assert_eq!(setting.decide(&printed("5")), Ok(None));
    assert_eq!(setting.decide(&printed("6")), Ok(Some(setting.write_command())));
    assert_eq!(setting.write_command(), line("defaults", vec!["write", "d", "k", "-int", "5"]));
    assert_eq!(
        setting.decide(&printed("true")),
        Err(DefaultsError::ParseError("Could not parse: true".to_string()))
    );
}

#[test]
fn dock_is_restarted_once_for_dock_and_mission_control() {
    let mc = MissionControl { automatically_rearrange_spaces: Some(false), group_apps: Some(true) };
    let mut s = store(vec![]);
    let mut run = apply_dock_group_settings(Some(full_dock()), Some(mc));
    assert_eq!(carry_out(&mut run, &mut s), Ok(true));
    assert_eq!(writes(&s).len(), 6);
    assert_eq!(restarts(&s), vec![&line("killall", vec!["Dock"])]);
    assert_eq!(s.log.len(), 13);
    assert_eq!(s.log[12], line("killall", vec!["Dock"]));
    s.log.clear();
    let mut again = apply_dock_group_settings(Some(full_dock()), Some(mc));
    assert_eq!(carry_out(&mut again, &mut s), Ok(false));
    assert!(writes(&s).is_empty());
    assert!(restarts(&s).is_empty());
    let mut nothing = apply_dock_group_settings(None, None);
    assert_eq!(carry_out(&mut nothing, &mut s), Ok(false));
}

#[test]
fn one_changed_mission_control_setting_restarts_the_dock() {
    let mc = MissionControl { automatically_rearrange_spaces: None, group_apps: Some(true) };
    let mut s = store(vec![
        ("com.apple.dock", "orientation", "left"),
        ("com.apple.dock", "autohide", "1"),
        ("com.apple.dock", "tilesize", "36"),
        ("com.apple.dock", "showhidden", "0"),
    ]);
    let mut run = apply_dock_group_settings(Some(full_dock()), Some(mc));
    assert_eq!(carry_out(&mut run, &mut s), Ok(true));
    assert_eq!(writes(&s).len(), 1);
    assert_eq!(restarts(&s).len(), 1);
}

#[test]
fn restart_that_exits_with_a_failure_fails_the_run_and_is_not_tried_again() {
    let settings = vec![Setting {
        domain: "d".to_string(),
        key: "k".to_string(),
        value: SettingValue::Int(3),
        restarts: true,
    }];
    let mut run = SettingsRun::new(settings, Some("Thing".to_string()));
    run.advance(&failed());
    run.advance(&printed(""));
    assert_eq!(run.pending(), Some(line("killall", vec!["Thing"])));
    run.advance(&failed());
    assert_eq!(run.pending(), None);
    assert_eq!(
        run.outcome(),
        Some(Err(DefaultsError::CommandFailed("killall Thing failed".to_string())))
    );
}
