//! Preference values and how one is written only where it differs.
//!
//! A preference is stored as text. Each kind of value says by a type flag
//! how it is stored, how its text is read and how it is written. One rule
//! then serves every kind: read what is stored, and write the wanted value
//! only where nothing is stored or something else is.

use crate::decimal::{format_i32, formatted_i32, lemma_format_then_parse, parse_i32, parsed_i32};
use crate::model::{option_view, views};
use crate::system_utils::{decode, decoded, Command, CommandView, Execution, ExecutionView};
use crate::text::{chars_of, eq_ignore_ascii_case, piece, same_chars, same_ignoring_ascii_case, trim_bounds, trimmed, CharClass};
use vstd::prelude::*;

verus! {

/// A failure to read or write a preference.
#[derive(Debug, Clone, PartialEq, Eq)]
pub enum DefaultsError {
    /// The preferences tool could not be run, or reported a failure.
    CommandFailed(String),
    /// The stored text is no value of the expected kind.
    ParseError(String),
    /// The tool's output was not UTF-8.
    Utf8Error,
}

/// `DefaultsError` with its texts as sequences of characters.
pub enum DefaultsErrorView {
    CommandFailed(Seq<char>),
    ParseError(Seq<char>),
    Utf8Error,
}

impl View for DefaultsError {
    type V = DefaultsErrorView;

    open spec fn view(&self) -> DefaultsErrorView {
        match self {
            DefaultsError::CommandFailed(m) => DefaultsErrorView::CommandFailed(m@),
            DefaultsError::ParseError(m) => DefaultsErrorView::ParseError(m@),
            DefaultsError::Utf8Error => DefaultsErrorView::Utf8Error,
        }
    }
}

impl DefaultsError {
    /// A copy of the error.
    pub fn duplicate(&self) -> (r: DefaultsError)
        ensures
            r@ == self@,
    {
        match self {
            DefaultsError::CommandFailed(m) => DefaultsError::CommandFailed(m.clone()),
            DefaultsError::ParseError(m) => DefaultsError::ParseError(m.clone()),
            DefaultsError::Utf8Error => DefaultsError::Utf8Error,
        }
    }
}

/// A kind of preference value.
pub trait DefaultsType: Sized {
    /// The flag that tells the preferences tool the kind of the value.
    spec fn flag() -> Seq<char>;

    /// The value that the stored text stands for, if any.
    spec fn parsed(s: Seq<char>) -> Option<Self>;

    /// The text that is written for the value.
    spec fn written(&self) -> Seq<char>;

    /// The text of the error for a stored text that stands for no value.
    spec fn complaint(s: Seq<char>) -> Seq<char>;

    /// The flag that tells the preferences tool the kind of the value.
    fn type_flag() -> (r: &'static str)
        ensures
            r@ == Self::flag(),
    ;

    /// Reads the stored text.
    fn parse_output(s: &str) -> (r: Result<Self, DefaultsError>)
        ensures
            match Self::parsed(s@) {
                Some(v) => r matches Ok(x) && x == v,
                None => r matches Err(e) && e@ == DefaultsErrorView::ParseError(
                    Self::complaint(s@),
                ),
            },
    ;

    /// Writes the value as text.
    fn serialize(&self) -> (r: String)
        ensures
            r@ == self.written(),
    ;

    /// Tells whether two values are the same.
    fn same(&self, other: &Self) -> (r: bool)
        ensures
            r == (*self == *other),
    ;

    /// What is written for a value is read back as that value.
    proof fn lemma_written_is_parsed(v: Self)
        ensures
            Self::parsed(v.written()) == Some(v),
    ;
}

impl DefaultsType for bool {
    open spec fn flag() -> Seq<char> {
        "-bool"@
    }

    /// `1` and `true` stand for true, `0` and `false` for false; the words
    /// in small or capital letters.
    open spec fn parsed(s: Seq<char>) -> Option<bool> {
        if s == "1"@ || eq_ignore_ascii_case(s, "true"@) {
            Some(true)
        } else if s == "0"@ || eq_ignore_ascii_case(s, "false"@) {
            Some(false)
        } else {
            None
        }
    }

    open spec fn written(&self) -> Seq<char> {
        if *self {
            "true"@
        } else {
            "false"@
        }
    }

    open spec fn complaint(s: Seq<char>) -> Seq<char> {
        "Unable to parse "@ + s + " as -bool"@
    }

    fn type_flag() -> (r: &'static str) {
        "-bool"
    }

    fn parse_output(s: &str) -> (r: Result<bool, DefaultsError>) {
        let v = chars_of(s);
        if same_chars(&v, &chars_of("1")) || same_ignoring_ascii_case(&v, &chars_of("true")) {
            Ok(true)
        } else if same_chars(&v, &chars_of("0")) || same_ignoring_ascii_case(
            &v,
            &chars_of("false"),
        ) {
            Ok(false)
        } else {
            let mut m = "Unable to parse ".to_owned();
            m.append(s);
            m.append(" as -bool");
            Err(DefaultsError::ParseError(m))
        }
    }

    fn serialize(&self) -> (r: String) {
        if *self {
            "true".to_owned()
        } else {
            "false".to_owned()
        }
    }

    fn same(&self, other: &bool) -> (r: bool) {
        *self == *other
    }

    proof fn lemma_written_is_parsed(v: bool) {
        reveal_strlit("1");
        reveal_strlit("true");
        reveal_strlit("false");
        assert("1"@.len() == 1 && "true"@.len() == 4 && "false"@.len() == 5);
    }
}

impl DefaultsType for i32 {
    open spec fn flag() -> Seq<char> {
        "-int"@
    }

    open spec fn parsed(s: Seq<char>) -> Option<i32> {
        parsed_i32(s)
    }

    open spec fn written(&self) -> Seq<char> {
        formatted_i32(*self)
    }

    open spec fn complaint(s: Seq<char>) -> Seq<char> {
        "Could not parse: "@ + s
    }

    fn type_flag() -> (r: &'static str) {
        "-int"
    }

    fn parse_output(s: &str) -> (r: Result<i32, DefaultsError>) {
        let v = chars_of(s);
        match parse_i32(&v) {
            Some(n) => Ok(n),
            None => {
                let mut m = "Could not parse: ".to_owned();
                m.append(s);
                Err(DefaultsError::ParseError(m))
            },
        }
    }

    fn serialize(&self) -> (r: String) {
        format_i32(*self)
    }

    fn same(&self, other: &i32) -> (r: bool) {
        *self == *other
    }

    proof fn lemma_written_is_parsed(v: i32) {
        lemma_format_then_parse(v);
    }
}

/// The edge of the screen at which the Dock lies.
#[derive(Debug, Clone, Copy, PartialEq, Eq, Structural)]
pub enum DockOrientation {
    Left,
    Bottom,
    Right,
}

impl DefaultsType for DockOrientation {
    open spec fn flag() -> Seq<char> {
        "-string"@
    }

    open spec fn parsed(s: Seq<char>) -> Option<DockOrientation> {
        if s == "left"@ {
            Some(DockOrientation::Left)
        } else if s == "bottom"@ {
            Some(DockOrientation::Bottom)
        } else if s == "right"@ {
            Some(DockOrientation::Right)
        } else {
            None
        }
    }

    open spec fn written(&self) -> Seq<char> {
        match self {
            DockOrientation::Left => "left"@,
            DockOrientation::Bottom => "bottom"@,
            DockOrientation::Right => "right"@,
        }
    }

    open spec fn complaint(s: Seq<char>) -> Seq<char> {
        "Could not parse output: "@ + s
    }

    fn type_flag() -> (r: &'static str) {
        "-string"
    }

    fn parse_output(s: &str) -> (r: Result<DockOrientation, DefaultsError>) {
        let v = chars_of(s);
        if same_chars(&v, &chars_of("left")) {
            Ok(DockOrientation::Left)
        } else if same_chars(&v, &chars_of("bottom")) {
            Ok(DockOrientation::Bottom)
        } else if same_chars(&v, &chars_of("right")) {
            Ok(DockOrientation::Right)
        } else {
            let mut m = "Could not parse output: ".to_owned();
            m.append(s);
            Err(DefaultsError::ParseError(m))
        }
    }

    fn serialize(&self) -> (r: String) {
        match self {
            DockOrientation::Left => "left".to_owned(),
            DockOrientation::Bottom => "bottom".to_owned(),
            DockOrientation::Right => "right".to_owned(),
        }
    }

    fn same(&self, other: &DockOrientation) -> (r: bool) {
        *self == *other
    }

    proof fn lemma_written_is_parsed(v: DockOrientation) {
        reveal_strlit("left");
        reveal_strlit("bottom");
        reveal_strlit("right");
        assert("left"@.len() == 4 && "bottom"@.len() == 6 && "right"@.len() == 5);
    }
}

/// How many buttons a mouse shows to the system.
#[derive(Debug, Clone, Copy, PartialEq, Eq, Structural)]
pub enum MouseButtonMode {
    OneButton,
    TwoButton,
}

impl DefaultsType for MouseButtonMode {
    open spec fn flag() -> Seq<char> {
        "-string"@
    }

    open spec fn parsed(s: Seq<char>) -> Option<MouseButtonMode> {
        if s == "OneButton"@ {
            Some(MouseButtonMode::OneButton)
        } else if s == "TwoButton"@ {
            Some(MouseButtonMode::TwoButton)
        } else {
            None
        }
    }

    open spec fn written(&self) -> Seq<char> {
        match self {
            MouseButtonMode::OneButton => "OneButton"@,
            MouseButtonMode::TwoButton => "TwoButton"@,
        }
    }

    open spec fn complaint(s: Seq<char>) -> Seq<char> {
        "Could not parse output: "@ + s
    }

    fn type_flag() -> (r: &'static str) {
        "-string"
    }

    fn parse_output(s: &str) -> (r: Result<MouseButtonMode, DefaultsError>) {
        let v = chars_of(s);
        if same_chars(&v, &chars_of("OneButton")) {
            Ok(MouseButtonMode::OneButton)
        } else if same_chars(&v, &chars_of("TwoButton")) {
            Ok(MouseButtonMode::TwoButton)
        } else {
            let mut m = "Could not parse output: ".to_owned();
            m.append(s);
            Err(DefaultsError::ParseError(m))
        }
    }

    fn serialize(&self) -> (r: String) {
        match self {
            MouseButtonMode::OneButton => "OneButton".to_owned(),
            MouseButtonMode::TwoButton => "TwoButton".to_owned(),
        }
    }

    fn same(&self, other: &MouseButtonMode) -> (r: bool) {
        *self == *other
    }

    proof fn lemma_written_is_parsed(v: MouseButtonMode) {
        reveal_strlit("OneButton");
        reveal_strlit("TwoButton");
        assert("OneButton"@[0] == 'O' && "TwoButton"@[0] == 'T');
    }
}

/// The command that reads the preference `key` of `domain`.
pub open spec fn read_command_of(domain: Seq<char>, key: Seq<char>) -> CommandView {
    CommandView::of("defaults"@).arg("read"@).arg(domain).arg(key)
}

/// The command that writes `value`, of the kind that `flag` names, to the
/// preference `key` of `domain`.
pub open spec fn write_command_of(
    domain: Seq<char>,
    key: Seq<char>,
    flag: Seq<char>,
    value: Seq<char>,
) -> CommandView {
    CommandView::of("defaults"@).arg("write"@).arg(domain).arg(key).arg(flag).arg(value)
}

/// The command that reads the preference `key` of `domain`.
pub fn read_command(domain: &str, key: &str) -> (r: Command)
    ensures
        r@ == read_command_of(domain@, key@),
{
    Command::new("defaults").arg("read").arg(domain).arg(key)
}

/// What is stored, from what came of the read command. A read that exits
/// with a failure means that the preference was never set. Output that is
/// not UTF-8, or that is no value of the kind `T` once the ASCII white space
/// around it is taken off, is an error.
pub open spec fn stored<T: DefaultsType>(read: ExecutionView) -> Result<
    Option<T>,
    DefaultsErrorView,
> {
    match read {
        ExecutionView::NotStarted(m) => Err(
            DefaultsErrorView::CommandFailed("Failed to execute defaults read: "@ + m),
        ),
        ExecutionView::Exited { success, stdout, .. } => if !success {
            Ok(None)
        } else {
            match decoded(stdout) {
                None => Err(DefaultsErrorView::Utf8Error),
                Some(text) => match T::parsed(trimmed(text, CharClass::AsciiWhitespace)) {
                    Some(v) => Ok(Some(v)),
                    None => Err(
                        DefaultsErrorView::ParseError(
                            T::complaint(trimmed(text, CharClass::AsciiWhitespace)),
                        ),
                    ),
                },
            }
        },
    }
}

/// Tells what is stored, from what came of the read command.
pub fn read_defaults<T: DefaultsType>(read: &Execution) -> (r: Result<Option<T>, DefaultsError>)
    ensures
        match stored::<T>(read@) {
            Ok(v) => r matches Ok(x) && x == v,
            Err(e) => r matches Err(x) && x@ == e,
        },
{
    match read {
        Execution::NotStarted(m) => {
            let mut text = "Failed to execute defaults read: ".to_owned();
            text.append(m.as_str());
            Err(DefaultsError::CommandFailed(text))
        },
        Execution::Exited(output) => {
            if !output.success {
                return Ok(None);
            }
            match decode(output.stdout.as_slice()) {
                None => Err(DefaultsError::Utf8Error),
                Some(text) => {
                    let v = chars_of(text.as_str());
                    let (from, to) = trim_bounds(&v, CharClass::AsciiWhitespace);
                    let t = piece(text.as_str(), from, to);
                    match T::parse_output(t.as_str()) {
                        Ok(value) => Ok(Some(value)),
                        Err(e) => Err(e),
                    }
                },
            }
        },
    }
}

/// What is to be done about a preference: nothing where `wanted` is stored
/// already, else the write command. A preference that was never set is
/// written.
pub open spec fn decision<T: DefaultsType>(
    domain: Seq<char>,
    key: Seq<char>,
    wanted: T,
    read: ExecutionView,
) -> Result<Option<CommandView>, DefaultsErrorView> {
    match stored::<T>(read) {
        Err(e) => Err(e),
        Ok(Some(v)) => if v == wanted {
            Ok(None)
        } else {
            Ok(Some(write_command_of(domain, key, T::flag(), wanted.written())))
        },
        Ok(None) => Ok(Some(write_command_of(domain, key, T::flag(), wanted.written()))),
    }
}

/// Decides from what came of the read command whether `new_value` has to be
/// written, and with which command.
pub fn write_defaults<T: DefaultsType>(
    domain: &str,
    key: &str,
    new_value: T,
    read: &Execution,
) -> (r: Result<Option<Command>, DefaultsError>)
    ensures
        match decision(domain@, key@, new_value, read@) {
            Ok(c) => r matches Ok(x) && option_view(x) == c,
            Err(e) => r matches Err(x) && x@ == e,
        },
{
    match read_defaults::<T>(read) {
        Err(e) => Err(e),
        Ok(current) => {
            let unchanged = match &current {
                Some(v) => v.same(&new_value),
                None => false,
            };
            if unchanged {
                Ok(None)
            } else {
                let value = new_value.serialize();
                Ok(
                    Some(
                        Command::new("defaults").arg("write").arg(domain).arg(key).arg(
                            T::type_flag(),
                        ).arg(value.as_str()),
                    ),
                )
            }
        },
    }
}

/// What a write came to: a change, unless the command could not be started
/// or exited with a failure.
pub open spec fn write_result(domain: Seq<char>, key: Seq<char>, write: ExecutionView) -> Result<
    bool,
    DefaultsErrorView,
> {
    match write {
        ExecutionView::NotStarted(m) => Err(
            DefaultsErrorView::CommandFailed("Failed to execute defaults write: "@ + m),
        ),
        ExecutionView::Exited { success, .. } => if success {
            Ok(true)
        } else {
            Err(
                DefaultsErrorView::CommandFailed(
                    "defaults write failed for "@ + domain + "."@ + key,
                ),
            )
        },
    }
}

/// Tells what a write came to.
pub fn write_outcome(domain: &str, key: &str, write: &Execution) -> (r: Result<
    bool,
    DefaultsError,
>)
    ensures
        match write_result(domain@, key@, write@) {
            Ok(b) => r == Ok::<bool, DefaultsError>(b),
            Err(e) => r matches Err(x) && x@ == e,
        },
{
    match write {
        Execution::NotStarted(m) => {
            let mut text = "Failed to execute defaults write: ".to_owned();
            text.append(m.as_str());
            Err(DefaultsError::CommandFailed(text))
        },
        Execution::Exited(output) => {
            if output.success {
                Ok(true)
            } else {
                let mut text = "defaults write failed for ".to_owned();
                text.append(domain);
                text.append(".");
                text.append(key);
                Err(DefaultsError::CommandFailed(text))
            }
        },
    }
}

/// A value that was just written is found in place by the next read: where
/// the read command prints what `serialize` wrote for `wanted`, with or
/// without ASCII white space around it, nothing is written again.
pub proof fn lemma_written_value_is_kept<T: DefaultsType>(
    domain: Seq<char>,
    key: Seq<char>,
    wanted: T,
    stdout: Seq<u8>,
    stderr: Seq<u8>,
)
    requires
        decoded(stdout) matches Some(text) && trimmed(text, CharClass::AsciiWhitespace)
            == wanted.written(),
    ensures
        decision(domain, key, wanted, ExecutionView::Exited { success: true, stdout, stderr })
            == Ok::<Option<CommandView>, DefaultsErrorView>(None),
{
    T::lemma_written_is_parsed(wanted);
}

/// A preference value of one of the kinds.
#[derive(Debug, Clone, Copy, PartialEq, Eq, Structural)]
pub enum SettingValue {
    Bool(bool),
    Int(i32),
    Orientation(DockOrientation),
    Mouse(MouseButtonMode),
}

impl SettingValue {
    /// The flag that tells the preferences tool the kind of the value.
    pub open spec fn flag(self) -> Seq<char> {
        match self {
            SettingValue::Bool(_) => <bool as DefaultsType>::flag(),
            SettingValue::Int(_) => <i32 as DefaultsType>::flag(),
            SettingValue::Orientation(_) => <DockOrientation as DefaultsType>::flag(),
            SettingValue::Mouse(_) => <MouseButtonMode as DefaultsType>::flag(),
        }
    }

    /// The text that is written for the value.
    pub open spec fn written(self) -> Seq<char> {
        match self {
            SettingValue::Bool(v) => v.written(),
            SettingValue::Int(v) => v.written(),
            SettingValue::Orientation(v) => v.written(),
            SettingValue::Mouse(v) => v.written(),
        }
    }

    /// Whether the stored text `s` stands for the value.
    pub open spec fn reads_as(self, s: Seq<char>) -> bool {
        match self {
            SettingValue::Bool(v) => <bool as DefaultsType>::parsed(s) == Some(v),
            SettingValue::Int(v) => <i32 as DefaultsType>::parsed(s) == Some(v),
            SettingValue::Orientation(v) => <DockOrientation as DefaultsType>::parsed(s) == Some(v),
            SettingValue::Mouse(v) => <MouseButtonMode as DefaultsType>::parsed(s) == Some(v),
        }
    }
}

/// A wanted preference: where it is stored, its value, and whether a change
/// of it calls for a restart of the program that reads it.
#[derive(Debug, Clone, PartialEq, Eq)]
pub struct Setting {
    pub domain: String,
    pub key: String,
    pub value: SettingValue,
    pub restarts: bool,
}

/// `Setting` with its texts as sequences of characters.
pub struct SettingView {
    pub domain: Seq<char>,
    pub key: Seq<char>,
    pub value: SettingValue,
    pub restarts: bool,
}

impl View for Setting {
    type V = SettingView;

    open spec fn view(&self) -> SettingView {
        SettingView {
            domain: self.domain@,
            key: self.key@,
            value: self.value,
            restarts: self.restarts,
        }
    }
}

impl SettingView {
    /// The command that reads the preference.
    pub open spec fn read_command(self) -> CommandView {
        read_command_of(self.domain, self.key)
    }

    /// The command that writes the wanted value.
    pub open spec fn write_command(self) -> CommandView {
        write_command_of(self.domain, self.key, self.value.flag(), self.value.written())
    }

    /// What is to be done about the preference, from what came of its read
    /// command: `decision`, for the kind of the value.
    pub open spec fn decide(self, read: ExecutionView) -> Result<
        Option<CommandView>,
        DefaultsErrorView,
    > {
        match self.value {
            SettingValue::Bool(v) => decision(self.domain, self.key, v, read),
            SettingValue::Int(v) => decision(self.domain, self.key, v, read),
            SettingValue::Orientation(v) => decision(self.domain, self.key, v, read),
            SettingValue::Mouse(v) => decision(self.domain, self.key, v, read),
        }
    }

    /// Whether `read` shows the wanted value in place: the read command
    /// succeeded and printed a text that, with the ASCII white space around
    /// it taken off, stands for the value.
    pub open spec fn in_place(self, read: ExecutionView) -> bool {
        &&& read matches ExecutionView::Exited { success: true, stdout, .. }
        &&& decoded(stdout) matches Some(text)
        &&& self.value.reads_as(trimmed(text, CharClass::AsciiWhitespace))
    }
}

impl Setting {
    /// Decides from what came of the read command whether the wanted value
    /// has to be written, and with which command.
    pub fn decide(&self, read: &Execution) -> (r: Result<Option<Command>, DefaultsError>)
        ensures
            match self@.decide(read@) {
                Ok(c) => r matches Ok(x) && option_view(x) == c,
                Err(e) => r matches Err(x) && x@ == e,
            },
    {
        let domain = self.domain.as_str();
        let key = self.key.as_str();
        match self.value {
            SettingValue::Bool(v) => write_defaults(domain, key, v, read),
            SettingValue::Int(v) => write_defaults(domain, key, v, read),
            SettingValue::Orientation(v) => write_defaults(domain, key, v, read),
            SettingValue::Mouse(v) => write_defaults(domain, key, v, read),
        }
    }

    /// The command that writes the wanted value.
    pub fn write_command(&self) -> (r: Command)
        ensures
            r@ == self@.write_command(),
    {
        let (flag, value) = match self.value {
            SettingValue::Bool(v) => (<bool as DefaultsType>::type_flag(), v.serialize()),
            SettingValue::Int(v) => (<i32 as DefaultsType>::type_flag(), v.serialize()),
            SettingValue::Orientation(v) => (
                <DockOrientation as DefaultsType>::type_flag(),
                v.serialize(),
            ),
            SettingValue::Mouse(v) => (
                <MouseButtonMode as DefaultsType>::type_flag(),
                v.serialize(),
            ),
        };
        Command::new("defaults").arg("write").arg(self.domain.as_str()).arg(
            self.key.as_str(),
        ).arg(flag).arg(value.as_str())
    }
}

/// A wanted value is written exactly when it is not in place: nothing is
/// written where the read shows it, and where a read that can be understood
/// shows something else or nothing, the write command is due.
pub proof fn lemma_written_iff_not_in_place(setting: SettingView, read: ExecutionView)
    ensures
        setting.in_place(read) <==> setting.decide(read) == Ok::<
            Option<CommandView>,
            DefaultsErrorView,
        >(None),
        setting.decide(read) matches Ok(Some(c)) ==> c == setting.write_command(),
{
}

/// The text that is written for a value stands for that value: a store that
/// gives back what was written shows the value in place.
pub proof fn lemma_written_text_reads_as_value(value: SettingValue)
    ensures
        value.reads_as(value.written()),
{
    match value {
        SettingValue::Bool(v) => <bool as DefaultsType>::lemma_written_is_parsed(v),
        SettingValue::Int(v) => <i32 as DefaultsType>::lemma_written_is_parsed(v),
        SettingValue::Orientation(v) => <DockOrientation as DefaultsType>::lemma_written_is_parsed(
            v,
        ),
        SettingValue::Mouse(v) => <MouseButtonMode as DefaultsType>::lemma_written_is_parsed(v),
    }
}

/// The command that ends the running program `name`, so that the system
/// starts it again with the new preferences.
pub open spec fn restart_command_of(name: Seq<char>) -> CommandView {
    CommandView::of("killall"@).arg(name)
}

/// What a restart came to: an error where the command could not be started
/// or exited with a failure.
pub open spec fn restart_result(name: Seq<char>, restart: ExecutionView) -> Result<
    (),
    DefaultsErrorView,
> {
    match restart {
        ExecutionView::NotStarted(m) => Err(
            DefaultsErrorView::CommandFailed("failed to kill "@ + name + " "@ + m),
        ),
        ExecutionView::Exited { success, .. } => if success {
            Ok(())
        } else {
            Err(DefaultsErrorView::CommandFailed("killall "@ + name + " failed"@))
        },
    }
}

/// The command that ends the running program `name`.
pub fn restart_command(name: &str) -> (r: Command)
    ensures
        r@ == restart_command_of(name@),
{
    Command::new("killall").arg(name)
}

/// Tells what a restart came to.
pub fn restart_outcome(name: &str, restart: &Execution) -> (r: Result<(), DefaultsError>)
    ensures
        match restart_result(name@, restart@) {
            Ok(_) => r is Ok,
            Err(e) => r matches Err(x) && x@ == e,
        },
{
    match restart {
        Execution::NotStarted(m) => {
            let mut text = "failed to kill ".to_owned();
            text.append(name);
            text.append(" ");
            text.append(m.as_str());
            Err(DefaultsError::CommandFailed(text))
        },
        Execution::Exited(output) => {
            if output.success {
                Ok(())
            } else {
                let mut text = "killall ".to_owned();
                text.append(name);
                text.append(" failed");
                Err(DefaultsError::CommandFailed(text))
            }
        },
    }
}

/// Where a run over preferences stands.
#[derive(Debug, Clone, Copy, PartialEq, Eq, Structural)]
pub enum Stage {
    /// Reading the current preference.
    Read,
    /// Writing the current preference.
    Write,
    /// Restarting the program that reads the preferences.
    Restart,
    /// Nothing is left to do, or the run has failed.
    Finished,
}

/// The state of a run over preferences, as a value of mathematics.
pub struct SettingsRunView {
    /// The wanted preferences, in the order in which they are handled.
    pub settings: Seq<SettingView>,
    /// The program to restart after a change, if any.
    pub restart: Option<Seq<char>>,
    /// The index of the current preference.
    pub pos: nat,
    /// Where the run stands.
    pub stage: Stage,
    /// Whether a preference was written whose change calls for a restart.
    pub changed: bool,
    /// The error that ended the run.
    pub error: Option<DefaultsErrorView>,
}

impl SettingsRunView {
    /// The state in which a run begins.
    pub open spec fn initial(settings: Seq<SettingView>, restart: Option<Seq<char>>) -> SettingsRunView {
        SettingsRunView {
            settings,
            restart,
            pos: 0,
            stage: Stage::Read,
            changed: false,
            error: None,
        }.enter(0)
    }

    /// What always holds of a run: a preference that is read or written
    /// exists; the restart comes when every preference is done, only after
    /// a change that calls for it, and only where a program is named; and a
    /// run ends without an error only when every preference is done.
    pub open spec fn wf(self) -> bool {
        &&& (self.stage == Stage::Read || self.stage == Stage::Write) ==> self.pos
            < self.settings.len()
        &&& self.stage == Stage::Restart ==> self.pos == self.settings.len() && self.changed
            && self.restart is Some
        &&& self.error is Some ==> self.stage == Stage::Finished
        &&& self.stage == Stage::Finished && self.error is None ==> self.pos
            == self.settings.len()
    }

    /// The current preference.
    pub open spec fn current(self) -> SettingView {
        self.settings[self.pos as int]
    }

    /// The command that the run wants carried out next; none once it has
    /// finished.
    pub open spec fn request(self) -> Option<CommandView> {
        match self.stage {
            Stage::Read => Some(self.current().read_command()),
            Stage::Write => Some(self.current().write_command()),
            Stage::Restart => Some(restart_command_of(self.restart->0)),
            Stage::Finished => None,
        }
    }

    /// The run, failed with `error`.
    pub open spec fn fail(self, error: DefaultsErrorView) -> SettingsRunView {
        SettingsRunView { stage: Stage::Finished, error: Some(error), ..self }
    }

    /// The run at preference `i`; behind the last one, at the restart where
    /// one is due, else finished.
    pub open spec fn enter(self, i: nat) -> SettingsRunView {
        if i < self.settings.len() {
            SettingsRunView { pos: i, stage: Stage::Read, ..self }
        } else if self.changed && self.restart is Some {
            SettingsRunView { pos: self.settings.len(), stage: Stage::Restart, ..self }
        } else {
            SettingsRunView { pos: self.settings.len(), stage: Stage::Finished, ..self }
        }
    }

    /// The state after the pending command came to `reply`.
    pub open spec fn step(self, reply: ExecutionView) -> SettingsRunView {
        match self.stage {
            Stage::Read => match self.current().decide(reply) {
                Err(e) => self.fail(e),
                Ok(None) => self.enter(self.pos + 1),
                Ok(Some(_)) => SettingsRunView { stage: Stage::Write, ..self },
            },
            Stage::Write => match write_result(self.current().domain, self.current().key, reply) {
                Err(e) => self.fail(e),
                Ok(_) => SettingsRunView {
                    changed: self.changed || self.current().restarts,
                    ..self
                }.enter(self.pos + 1),
            },
            Stage::Restart => match restart_result(self.restart->0, reply) {
                Err(e) => self.fail(e),
                Ok(_) => SettingsRunView { stage: Stage::Finished, ..self },
            },
            Stage::Finished => self,
        }
    }

    /// How the run ended: with an error, or with the word whether a change
    /// was made that calls for a restart. Nothing while the run goes on.
    pub open spec fn outcome(self) -> Option<Result<bool, DefaultsErrorView>> {
        if self.stage != Stage::Finished {
            None
        } else {
            match self.error {
                Some(e) => Some(Err(e)),
                None => Some(Ok(self.changed)),
            }
        }
    }

    /// An upper bound on the number of commands that the run still wants.
    pub open spec fn budget(self) -> nat {
        match self.stage {
            Stage::Read => (2 * (self.settings.len() - self.pos) + 1) as nat,
            Stage::Write => (2 * (self.settings.len() - self.pos)) as nat,
            Stage::Restart => 1,
            Stage::Finished => 0,
        }
    }
}

/// The writing of wanted preferences, one command at a time.
///
/// The caller runs the command that [`SettingsRun::pending`] gives and hands
/// what came of it to [`SettingsRun::advance`], until no command is pending;
/// then [`SettingsRun::outcome`] says how the run ended.
#[derive(Debug)]
pub struct SettingsRun {
    settings: Vec<Setting>,
    restart: Option<String>,
    pos: usize,
    stage: Stage,
    changed: bool,
    error: Option<DefaultsError>,
}

impl View for SettingsRun {
    type V = SettingsRunView;

    closed spec fn view(&self) -> SettingsRunView {
        SettingsRunView {
            settings: views(self.settings@),
            restart: option_view(self.restart),
            pos: self.pos as nat,
            stage: self.stage,
            changed: self.changed,
            error: option_view(self.error),
        }
    }
}

impl SettingsRun {
    /// Begins a run over `settings`. Where `restart` names a program, it is
    /// restarted once, at the end, if a preference was written whose change
    /// calls for it.
    pub fn new(settings: Vec<Setting>, restart: Option<String>) -> (run: SettingsRun)
        ensures
            run@ == SettingsRunView::initial(views(settings@), option_view(restart)),
            run@.wf(),
    {
        let stage = if settings.len() > 0 {
            Stage::Read
        } else {
            Stage::Finished
        };
        SettingsRun { settings, restart, pos: 0, stage, changed: false, error: None }
    }

    /// The command that the caller has to run next; none once the run has
    /// finished.
    pub fn pending(&self) -> (r: Option<Command>)
        requires
            self@.wf(),
        ensures
            option_view(r) == self@.request(),
    {
        match self.stage {
            Stage::Read => Some(
                read_command(
                    self.settings[self.pos].domain.as_str(),
                    self.settings[self.pos].key.as_str(),
                ),
            ),
            Stage::Write => Some(self.settings[self.pos].write_command()),
            Stage::Restart => match &self.restart {
                Some(name) => Some(restart_command(name.as_str())),
                None => None,
            },
            Stage::Finished => None,
        }
    }

    /// Whether the run has ended.
    pub fn is_finished(&self) -> (r: bool)
        ensures
            r == (self@.stage == Stage::Finished),
            r == self@.request() is None,
    {
        match self.stage {
            Stage::Finished => true,
            _ => false,
        }
    }

    /// How the run ended; nothing while it goes on.
    pub fn outcome(&self) -> (r: Option<Result<bool, DefaultsError>>)
        ensures
            match self@.outcome() {
                None => r is None,
                Some(Ok(b)) => r == Some(Ok::<bool, DefaultsError>(b)),
                Some(Err(e)) => r matches Some(Err(x)) && x@ == e,
            },
    {
        match self.stage {
            Stage::Finished => match &self.error {
                Some(e) => Some(Err(e.duplicate())),
                None => Some(Ok(self.changed)),
            },
            _ => None,
        }
    }

    fn fail(&mut self, error: DefaultsError)
        ensures
            final(self)@ == old(self)@.fail(error@),
    {
        self.stage = Stage::Finished;
        self.error = Some(error);
    }

    fn enter(&mut self, i: usize)
        ensures
            final(self)@ == old(self)@.enter(i as nat),
    {
        if i < self.settings.len() {
            self.pos = i;
            self.stage = Stage::Read;
        } else {
            self.pos = self.settings.len();
            if self.changed && self.restart.is_some() {
                self.stage = Stage::Restart;
            } else {
                self.stage = Stage::Finished;
            }
        }
    }

    /// Takes what came of the pending command and decides what comes next.
    /// A command that is handed in after the run has finished changes
    /// nothing.
    pub fn advance(&mut self, reply: &Execution)
        requires
            old(self)@.wf(),
        ensures
            final(self)@ == old(self)@.step(reply@),
            final(self)@.wf(),
    {
        let count = self.settings.len();
        match self.stage {
            Stage::Read => {
                match self.settings[self.pos].decide(reply) {
                    Err(e) => {
                        self.fail(e);
                    },
                    Ok(None) => {
                        let next = self.pos + 1;
                        self.enter(next);
                    },
                    Ok(Some(_)) => {
                        self.stage = Stage::Write;
                    },
                }
            },
            Stage::Write => {
                let done = write_outcome(
                    self.settings[self.pos].domain.as_str(),
                    self.settings[self.pos].key.as_str(),
                    reply,
                );
                match done {
                    Err(e) => {
                        self.fail(e);
                    },
                    Ok(_) => {
                        self.changed = self.changed || self.settings[self.pos].restarts;
                        let next = self.pos + 1;
                        self.enter(next);
                    },
                }
            },
            Stage::Restart => {
                let done = match &self.restart {
                    Some(name) => restart_outcome(name.as_str(), reply),
                    None => Ok(()),
                };
                match done {
                    Err(e) => {
                        self.fail(e);
                    },
                    Ok(_) => {
                        self.stage = Stage::Finished;
                    },
                }
            },
            Stage::Finished => {},
        }
    }
}

/// Every command that comes back keeps the run well formed and uses up some
/// of its budget: a run over `n` preferences ends after at most `2 * n + 1`
/// commands.
pub proof fn lemma_settings_step_spends_budget(run: SettingsRunView, reply: ExecutionView)
    requires
        run.wf(),
        run.stage != Stage::Finished,
    ensures
        run.step(reply).wf(),
        run.step(reply).budget() < run.budget(),
        run.step(reply).settings == run.settings,
        run.step(reply).restart == run.restart,
{
}

/// The restart comes once, last, and only after a change. When the run wants
/// the restart, every preference has been handled and one whose change
/// calls for a restart was written; whatever comes of the restart, the run
/// is finished after it. And a change is on record only from a write that
/// succeeded.
pub proof fn lemma_restart_is_last_and_due(run: SettingsRunView, reply: ExecutionView)
    requires
        run.wf(),
    ensures
        run.stage == Stage::Restart ==> run.pos == run.settings.len() && run.changed
            && run.step(reply).stage == Stage::Finished,
        run.step(reply).changed && !run.changed ==> run.stage == Stage::Write
            && run.current().restarts && write_result(
            run.current().domain,
            run.current().key,
            reply,
        ) is Ok,
{
}

/// A world that answers every command the same way each time: the system
/// as long as nothing changes it.
pub type Answers = spec_fn(CommandView) -> ExecutionView;

impl SettingsRunView {
    /// The commands that the run wants, in order, while `world` answers
    /// them.
    pub open spec fn requests(self, world: Answers) -> Seq<CommandView>
        decreases self.budget(),
    {
        if self.wf() && self.request() is Some {
            proof {
                lemma_settings_step_spends_budget(self, world(self.request()->0));
            }
            seq![self.request()->0] + self.step(world(self.request()->0)).requests(world)
        } else {
            Seq::empty()
        }
    }

    /// The state in which the run ends while `world` answers its commands.
    pub open spec fn finish(self, world: Answers) -> SettingsRunView
        decreases self.budget(),
    {
        if self.wf() && self.request() is Some {
            proof {
                lemma_settings_step_spends_budget(self, world(self.request()->0));
            }
            self.step(world(self.request()->0)).finish(world)
        } else {
            self
        }
    }

    /// Whether in `world` every wanted value is in place.
    pub open spec fn settled(self, world: Answers) -> bool {
        forall|i: int|
            0 <= i < self.settings.len() ==> (#[trigger] self.settings[i]).in_place(
                world(self.settings[i].read_command()),
            )
    }

    /// Whether `command` is the read command of one of the preferences.
    pub open spec fn reads(self, command: CommandView) -> bool {
        exists|i: int|
            0 <= i < self.settings.len() && command == (#[trigger] self.settings[i]).read_command()
    }
}

/// A run in a world where every wanted value is in place writes nothing and
/// restarts nothing: each of its commands is the read command of one of the
/// preferences, and it ends with the word that nothing changed. This is what
/// makes a second run after a first one free of writes.
pub proof fn lemma_settled_run_writes_nothing(run: SettingsRunView, world: Answers)
    requires
        run.wf(),
        run.settled(world),
        run.stage == Stage::Read || run.stage == Stage::Finished,
        !run.changed,
        run.error is None,
    ensures
        forall|k: int|
            0 <= k < run.requests(world).len() ==> run.reads(#[trigger] run.requests(world)[k]),
        run.finish(world).outcome() == Some(Ok::<bool, DefaultsErrorView>(false)),
    decreases run.budget(),
{
    if run.stage == Stage::Read {
        let asked = run.request()->0;
        let next = run.step(world(asked));
        assert(run.settings[run.pos as int] == run.current());
        lemma_written_iff_not_in_place(run.current(), world(asked));
        lemma_settings_step_spends_budget(run, world(asked));
        lemma_settled_run_writes_nothing(next, world);
        assert(run.requests(world) == seq![asked] + next.requests(world));
        assert(run.finish(world) == next.finish(world));
        assert(run.reads(asked));
        assert forall|k: int| 0 <= k < run.requests(world).len() implies run.reads(
            #[trigger] run.requests(world)[k],
        ) by {
            if k > 0 {
                assert(next.reads(next.requests(world)[k - 1]));
            }
        }
    }
}


/// What the preferences tool holds for each preference of a run, in the
/// order of the run: the bytes that a read of it prints, or nothing where it
/// was never set. A write to one cell leaves the others as they are, which
/// holds of preferences with different keys.
pub type Cells = Seq<Option<Seq<u8>>>;

/// Whether no two of the preferences have the same domain and key.
pub open spec fn distinct_keys(settings: Seq<SettingView>) -> bool {
    forall|i: int, j: int|
        #![trigger settings[i], settings[j]]
        0 <= i < j < settings.len() ==> !(settings[i].domain == settings[j].domain
            && settings[i].key == settings[j].key)
}

/// How the preferences tool prints a preference once it is written.
pub type Shown = spec_fn(SettingView) -> Seq<u8>;

/// What came of a successful read that printed `out`.
pub open spec fn read_of(out: Seq<u8>) -> ExecutionView {
    ExecutionView::Exited { success: true, stdout: out, stderr: Seq::empty() }
}

/// Whether the tool prints every preference of `settings`, once written,
/// as a text that stands for the written value.
pub open spec fn shows_written(shown: Shown, settings: Seq<SettingView>) -> bool {
    forall|i: int|
        0 <= i < settings.len() ==> (#[trigger] settings[i]).in_place(read_of(shown(settings[i])))
}

/// Whether the cell holds the wanted value of `setting`.
pub open spec fn cell_in_place(setting: SettingView, cell: Option<Seq<u8>>) -> bool {
    cell matches Some(out) && setting.in_place(read_of(out))
}

/// How a run against the cells ended.
pub struct Carried {
    /// The run at its end.
    pub run: SettingsRunView,
    /// The cells at the end of the run.
    pub cells: Cells,
    /// How many writes the run made.
    pub writes: nat,
    /// How many restarts the run made.
    pub restarts: nat,
}

impl SettingsRunView {
    /// What comes of the pending command where the tool holds `cells`: a
    /// read prints the cell of the preference, or fails where it was never
    /// set; a write and a restart succeed.
    pub open spec fn answer_from(self, cells: Cells) -> ExecutionView {
        if self.stage == Stage::Read {
            match cells[self.pos as int] {
                Some(out) => read_of(out),
                None => ExecutionView::Exited {
                    success: false,
                    stdout: Seq::empty(),
                    stderr: Seq::empty(),
                },
            }
        } else {
            read_of(Seq::empty())
        }
    }

    /// The cells once the pending command is carried out: a write puts into
    /// the cell of the preference what the tool shows for it.
    pub open spec fn cells_after(self, cells: Cells, shown: Shown) -> Cells {
        if self.stage == Stage::Write {
            cells.update(self.pos as int, Some(shown(self.current())))
        } else {
            cells
        }
    }

    /// The run carried through against the cells.
    pub open spec fn carry(self, cells: Cells, shown: Shown) -> Carried
        decreases self.budget(),
    {
        if self.wf() && self.stage != Stage::Finished {
            proof {
                lemma_settings_step_spends_budget(self, self.answer_from(cells));
            }
            let rest = self.step(self.answer_from(cells)).carry(
                self.cells_after(cells, shown),
                shown,
            );
            Carried {
                writes: rest.writes + if self.stage == Stage::Write {
                    1nat
                } else {
                    0nat
                },
                restarts: rest.restarts + if self.stage == Stage::Restart {
                    1nat
                } else {
                    0nat
                },
                ..rest
            }
        } else {
            Carried { run: self, cells, writes: 0, restarts: 0 }
        }
    }
}

/// A run that ends well leaves every wanted value in place, and restarts at
/// most once.
pub proof fn lemma_run_settles_cells(run: SettingsRunView, cells: Cells, shown: Shown)
    requires
        run.wf(),
        cells.len() == run.settings.len(),
        shows_written(shown, run.settings),
        forall|i: int| 0 <= i < run.pos ==> cell_in_place(run.settings[i], #[trigger] cells[i]),
    ensures
        run.carry(cells, shown).cells.len() == cells.len(),
        run.carry(cells, shown).restarts <= 1,
        run.stage != Stage::Read && run.stage != Stage::Write ==> run.carry(cells, shown).writes
            == 0,
        run.carry(cells, shown).run.outcome() matches Some(Ok(_)) ==> forall|i: int|
            0 <= i < cells.len() ==> cell_in_place(
                run.settings[i],
                #[trigger] run.carry(cells, shown).cells[i],
            ),
    decreases run.budget(),
{
    if run.stage != Stage::Finished {
        let reply = run.answer_from(cells);
        let next = run.step(reply);
        let after = run.cells_after(cells, shown);
        lemma_settings_step_spends_budget(run, reply);
        if run.stage == Stage::Read {
            lemma_written_iff_not_in_place(run.current(), reply);
        }
        if next.stage != Stage::Finished || next.error is None {
            if run.stage == Stage::Read || run.stage == Stage::Write {
                assert forall|i: int| 0 <= i < next.pos implies cell_in_place(
                    next.settings[i],
                    #[trigger] after[i],
                ) by {
                    if i == run.pos && next.stage != Stage::Write {
                        assert(run.settings[i] == run.current());
                    }
                }
            }
            lemma_run_settles_cells(next, after, shown);
        } else {
            assert(next.carry(after, shown).run == next);
        }
        assert(run.carry(cells, shown).run == next.carry(after, shown).run);
        assert(run.carry(cells, shown).cells == next.carry(after, shown).cells);
    }
}

/// A run over cells that hold every wanted value writes nothing, restarts
/// nothing, leaves the cells as they are, and ends with the word that
/// nothing changed.
pub proof fn lemma_settled_cells_stay(run: SettingsRunView, cells: Cells, shown: Shown)
    requires
        run.wf(),
        run.stage == Stage::Read || run.stage == Stage::Finished,
        !run.changed,
        run.error is None,
        cells.len() == run.settings.len(),
        forall|i: int| 0 <= i < cells.len() ==> cell_in_place(run.settings[i], #[trigger] cells[i]),
    ensures
        run.carry(cells, shown).writes == 0,
        run.carry(cells, shown).restarts == 0,
        run.carry(cells, shown).cells == cells,
        run.carry(cells, shown).run.outcome() == Some(Ok::<bool, DefaultsErrorView>(false)),
    decreases run.budget(),
{
    if run.stage == Stage::Read {
        let reply = run.answer_from(cells);
        assert(cell_in_place(run.settings[run.pos as int], cells[run.pos as int]));
        lemma_written_iff_not_in_place(run.current(), reply);
        lemma_settings_step_spends_budget(run, reply);
        lemma_settled_cells_stay(run.step(reply), cells, shown);
        assert(run.carry(cells, shown).run == run.step(reply).carry(cells, shown).run);
    }
}

/// A second run writes nothing. Where no two preferences have the same
/// domain and key and a run over them ended well, a second run over the
/// same preferences, against what the first one left, makes no write and no
/// restart, leaves everything as it is, and ends with the word that nothing
/// changed.
pub proof fn lemma_second_run_writes_nothing(
    settings: Seq<SettingView>,
    restart: Option<Seq<char>>,
    cells: Cells,
    shown: Shown,
)
    requires
        distinct_keys(settings),
        cells.len() == settings.len(),
        shows_written(shown, settings),
        SettingsRunView::initial(settings, restart).carry(cells, shown).run.outcome() matches Some(
            Ok(_),
        ),
    ensures
        ({
            let first = SettingsRunView::initial(settings, restart).carry(cells, shown);
            let second = SettingsRunView::initial(settings, restart).carry(first.cells, shown);
            &&& second.writes == 0
            &&& second.restarts == 0
            &&& second.cells == first.cells
            &&& second.run.outcome() == Some(Ok::<bool, DefaultsErrorView>(false))
        }),
{
    let start = SettingsRunView::initial(settings, restart);
    lemma_run_settles_cells(start, cells, shown);
    lemma_settled_cells_stay(start, start.carry(cells, shown).cells, shown);
}

} // verus!
