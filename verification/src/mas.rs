//! Apps of the Mac App Store, and the report of the tool that lists them.
//!
//! A line of the report names one installed app: its numeric identifier, its
//! name and, in parentheses at the end of the line, its version. The name
//! may hold white space and parentheses of its own, so the line is read from
//! both ends: the identifier is the longest run of digits at its start, the
//! version is the parenthesized token at its end, and the name is what lies
//! between the white space that follows the one and precedes the other.

use crate::errors::{SetupError, SetupErrorView};
use crate::model::views;
use crate::reconcile::{find_missing, missing_of, referents, Identified, InstallRun, InstallRunView, InstallStep, InstallStepView};
use crate::system_utils::{command, located, printed_lines, read_lines, Command, CommandView, Execution, ExecutionView};
use crate::text::{chars_of, piece, run_end, run_start, scan_backward, scan_forward, trim, trim_str, CharClass};
use vstd::hash_set::StringHashSet;
use vstd::prelude::*;

verus! {

/// The wanted apps.
#[derive(Debug, Clone, PartialEq, Eq)]
pub struct Mas {
    /// The apps to install, in the order in which they are installed.
    pub apps: Vec<App>,
}

/// An app of the store. The identifier alone tells apps apart.
#[derive(Debug, Clone, PartialEq, Eq, Hash)]
pub struct App {
    /// The name of the app.
    pub name: String,
    /// The identifier of the app in the store.
    pub id: String,
}

/// `App` with its texts as sequences of characters.
pub struct AppView {
    pub name: Seq<char>,
    pub id: Seq<char>,
}

impl View for App {
    type V = AppView;

    open spec fn view(&self) -> AppView {
        AppView { name: self.name@, id: self.id@ }
    }
}

impl Identified for App {
    open spec fn identity(&self) -> Seq<char> {
        self.id@
    }

    fn key(&self) -> (r: String) {
        self.id.clone()
    }
}

/// The identifiers of the installed apps.
pub struct InstalledMasApps {
    pub apps: StringHashSet,
}

/// The wanted apps that are not installed, in the wanted order.
#[derive(Debug, Clone, PartialEq, Eq)]
pub struct MissingMasApps<'a> {
    pub apps: Vec<&'a App>,
}

/// A line of the report, taken apart.
#[derive(Debug, Clone, PartialEq, Eq)]
pub struct MasRecord {
    pub id: String,
    pub name: String,
    pub version: String,
}

/// `MasRecord` with its texts as sequences of characters.
pub struct MasRecordView {
    pub id: Seq<char>,
    pub name: Seq<char>,
    pub version: Seq<char>,
}

impl View for MasRecord {
    type V = MasRecordView;

    open spec fn view(&self) -> MasRecordView {
        MasRecordView { id: self.id@, name: self.name@, version: self.version@ }
    }
}

/// What a line of the report says, if it has the shape of one.
///
/// White space at both ends of the line does not count. The identifier is
/// the longest run of digits at the start and is not empty. The line ends
/// with `)`; the version is the run before it of characters that are neither
/// parenthesis nor white space, is not empty, and follows a `(`. White
/// space follows the identifier and precedes the `(`. The name is what lies
/// between, without that white space, and is not empty.
pub open spec fn record_of(line: Seq<char>) -> Option<MasRecordView> {
    let t = trim(line);
    let id_end = run_end(t, 0, CharClass::Digit);
    let name_start = run_end(t, id_end, CharClass::Whitespace);
    let close = t.len() - 1;
    let version_start = run_start(t, close, CharClass::VersionChar);
    let open = version_start - 1;
    let name_end = run_start(t, open, CharClass::Whitespace);
    if t.len() > 0 && t[close] == ')' && version_start < close && open >= 0 && t[open] == '('
        && 0 < id_end < name_start < name_end < open {
        Some(
            MasRecordView {
                id: t.subrange(0, id_end),
                name: t.subrange(name_start, name_end),
                version: t.subrange(version_start, close),
            },
        )
    } else {
        None
    }
}

/// The reader of the report's lines.
#[derive(Debug, Clone, Copy, PartialEq, Eq)]
pub struct MasListParser;

impl MasListParser {
    /// Takes a line of the report apart.
    pub fn parse(record: &str) -> (r: Option<MasRecord>)
        ensures
            crate::model::option_view(r) == record_of(record@),
    {
        let line = trim_str(record);
        let t = chars_of(line.as_str());
        let n = t.len();
        if n == 0 || t[n - 1] != ')' {
            return None;
        }
        let id_end = scan_forward(&t, 0, CharClass::Digit);
        let name_start = scan_forward(&t, id_end, CharClass::Whitespace);
        let close = n - 1;
        let version_start = scan_backward(&t, close, CharClass::VersionChar);
        if version_start == 0 || version_start >= close {
            return None;
        }
        let open = version_start - 1;
        let name_end = scan_backward(&t, open, CharClass::Whitespace);
        if t[open] == '(' && 0 < id_end && id_end < name_start && name_start < name_end
            && name_end < open {
            Some(
                MasRecord {
                    id: piece(line.as_str(), 0, id_end),
                    name: piece(line.as_str(), name_start, name_end),
                    version: piece(line.as_str(), version_start, close),
                },
            )
        } else {
            None
        }
    }
}

/// The app that a line of the report names. A line that has not the shape
/// of one is a `ParseError` that holds the line.
pub fn parse_mas_list_record(record: &str) -> (r: Result<App, SetupError>)
    ensures
        match record_of(record@) {
            Some(rec) => r matches Ok(app) && app@ == (AppView { name: rec.name, id: rec.id }),
            None => r matches Err(e) && e@ == SetupErrorView::ParseError(record@),
        },
{
    match MasListParser::parse(record) {
        Some(rec) => Ok(App { name: rec.name, id: rec.id }),
        None => Err(SetupError::ParseError(record.to_owned())),
    }
}

/// The first line from `from` on that has not the shape of a line of the
/// report; the number of lines where there is none.
pub open spec fn first_unreadable(lines: Seq<Seq<char>>, from: int) -> int
    decreases lines.len() - from,
{
    if 0 <= from < lines.len() && record_of(lines[from]) is Some {
        first_unreadable(lines, from + 1)
    } else {
        from
    }
}

/// Whether `line` names the app with the identifier `id`.
pub open spec fn names_id(line: Seq<char>, id: Seq<char>) -> bool {
    record_of(line) matches Some(rec) && rec.id == id
}

/// The identifiers that the lines name.
pub open spec fn listed_ids(lines: Seq<Seq<char>>) -> Set<Seq<char>> {
    Set::new(|id: Seq<char>| exists|i: int| 0 <= i < lines.len() && names_id(#[trigger] lines[i], id))
}

/// The identifiers of the installed apps, from what came of the listing.
/// Every line has to name an app: the first that does not is a `ParseError`
/// that holds the line, and nothing is made of the lines that can be read.
pub open spec fn installed_ids(listing: ExecutionView) -> Result<Set<Seq<char>>, SetupErrorView> {
    match printed_lines(listing) {
        Err(e) => Err(e),
        Ok(lines) => if first_unreadable(lines, 0) < lines.len() {
            Err(SetupErrorView::ParseError(lines[first_unreadable(lines, 0)]))
        } else {
            Ok(listed_ids(lines))
        },
    }
}

/// The command that lists the installed apps.
pub fn list_command() -> (r: Command)
    ensures
        r@ == CommandView::of("mas"@).arg("list"@),
{
    Command::new("mas").arg("list")
}

/// Reads the installed apps from what came of the listing.
pub fn get_installed_apps(listing: &Execution) -> (r: Result<InstalledMasApps, SetupError>)
    ensures
        match installed_ids(listing@) {
            Ok(ids) => r matches Ok(installed) && installed.apps@ == ids,
            Err(e) => r matches Err(x) && x@ == e,
        },
{
    let lines = match read_lines(listing) {
        Ok(lines) => lines,
        Err(e) => {
            return Err(e);
        },
    };
    let mut apps = StringHashSet::new();
    let mut i: usize = 0;
    assert(apps@ =~= listed_ids(views(lines@).take(0)));
    while i < lines.len()
        invariant
            i <= lines.len(),
            printed_lines(listing@) == Ok::<Seq<Seq<char>>, SetupErrorView>(views(lines@)),
            first_unreadable(views(lines@), 0) == first_unreadable(views(lines@), i as int),
            apps@ == listed_ids(views(lines@).take(i as int)),
        decreases lines.len() - i,
    {
        let ghost all = views(lines@);
        let ghost before = all.take(i as int);
        match parse_mas_list_record(lines[i].as_str()) {
            Err(e) => {
                return Err(e);
            },
            Ok(app) => {
                apps.insert(app.id);
                proof {
                    let after = all.take(i + 1);
                    assert(after =~= before.push(all[i as int]));
                    let id = record_of(all[i as int])->0.id;
                    assert forall|x: Seq<char>| listed_ids(after).contains(x) == apps@.contains(
                        x,
                    ) by {
                        if listed_ids(before).contains(x) {
                            let j = choose|j: int|
                                0 <= j < before.len() && names_id(#[trigger] before[j], x);
                            assert(after[j] == before[j]);
                        }
                        if x == id {
                            assert(after[i as int] == all[i as int]);
                        }
                        if listed_ids(after).contains(x) {
                            let j = choose|j: int|
                                0 <= j < after.len() && names_id(#[trigger] after[j], x);
                            if j < i {
                                assert(before[j] == after[j]);
                            }
                        }
                    }
                    assert(apps@ =~= listed_ids(after));
                }
            },
        }
        i = i + 1;
    }
    assert(views(lines@).take(i as int) =~= views(lines@));
    Ok(InstalledMasApps { apps })
}

/// Finds the wanted apps that are not installed: those whose identifier is
/// not among the installed ones, in the wanted order.
pub fn find_missing_apps<'a>(desired: &'a Mas, installed: &InstalledMasApps) -> (missing:
    MissingMasApps<'a>)
    ensures
        referents(missing.apps@) == missing_of(desired.apps@, installed.apps@),
{
    MissingMasApps { apps: find_missing(&desired.apps, &installed.apps) }
}

/// Tells from what came of the probe whether the store's tool is there; the
/// error is that of the probe.
pub fn check_mas_installed(found: &Execution) -> (r: Result<(), SetupError>)
    ensures
        match located("mas"@, found@) {
            Ok(_) => r is Ok,
            Err(e) => r matches Err(x) && x@ == e,
        },
{
    match command("mas", found) {
        Ok(_) => Ok(()),
        Err(e) => Err(e),
    }
}

/// The installation of the app with the identifier `id`.
pub open spec fn app_step(id: Seq<char>) -> InstallStepView {
    InstallStepView {
        command: CommandView::of("mas"@).arg("install"@).arg(id),
        on_failure: SetupErrorView::MasInstallFailed,
    }
}

/// Begins the installation of the missing apps: one installation for each,
/// in their order.
pub fn install_missing_apps(missing: &MissingMasApps) -> (run: InstallRun)
    ensures
        run@ == InstallRunView::initial(
            Seq::new(missing.apps@.len(), |i: int| app_step(missing.apps@[i].id@)),
        ),
        run@.wf(),
{
    let mut steps: Vec<InstallStep> = Vec::new();
    let mut i: usize = 0;
    while i < missing.apps.len()
        invariant
            i <= missing.apps.len(),
            steps@.len() == i,
            forall|j: int| 0 <= j < i ==> (#[trigger] steps@[j])@ == app_step(missing.apps@[j].id@),
        decreases missing.apps.len() - i,
    {
        steps.push(
            InstallStep {
                command: Command::new("mas").arg("install").arg(missing.apps[i].id.as_str()),
                on_failure: SetupError::MasInstallFailed,
            },
        );
        i = i + 1;
    }
    assert(views(steps@) =~= Seq::new(
        missing.apps@.len(),
        |i: int| app_step(missing.apps@[i].id@),
    ));
    InstallRun::new(steps)
}

} // verus!
