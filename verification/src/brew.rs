//! Packages of the Homebrew package manager: formulae and casks.

use crate::errors::{SetupError, SetupErrorView};
use crate::model::views;
use crate::reconcile::{collect_names, find_missing, lemma_missing_names, name_set, names_missing, referents, InstallRun, InstallRunView, InstallStep, InstallStepView};
use crate::system_utils::{command, located, printed_lines, read_lines, Command, CommandView, Execution};
use vstd::hash_set::StringHashSet;
use vstd::prelude::*;

verus! {

/// The wanted packages.
#[derive(Debug, Clone, PartialEq, Eq)]
pub struct Brew {
    pub formulae: Option<Vec<String>>,
    pub casks: Option<Vec<String>>,
}

/// The names of the installed packages.
pub struct InstalledBrewPackages {
    pub formulae: StringHashSet,
    pub casks: StringHashSet,
}

/// The wanted packages that are not installed, in the wanted order.
#[derive(Debug, Clone, PartialEq, Eq)]
pub struct MissingBrewPackages<'a> {
    pub formulae: Vec<&'a str>,
    pub casks: Vec<&'a str>,
}

/// The wanted names of one sort of package; none where the configuration
/// leaves the sort out.
pub open spec fn wanted_names(names: Option<Vec<String>>) -> Seq<Seq<char>> {
    match names {
        Some(v) => views(v@),
        None => Seq::empty(),
    }
}

/// The texts of a sequence of string slices.
pub open spec fn texts(s: Seq<&str>) -> Seq<Seq<char>> {
    Seq::new(s.len(), |i: int| s[i]@)
}

fn missing_names<'a>(wanted: &'a Option<Vec<String>>, installed: &StringHashSet) -> (r: Vec<
    &'a str,
>)
    ensures
        texts(r@) == names_missing(wanted_names(*wanted), installed@),
{
    let mut out: Vec<&'a str> = Vec::new();
    match wanted {
        Some(names) => {
            let found = find_missing(names, installed);
            let mut i: usize = 0;
            while i < found.len()
                invariant
                    i <= found.len(),
                    out@.len() == i,
                    forall|j: int| 0 <= j < i ==> (#[trigger] out@[j])@ == found@[j]@,
                decreases found.len() - i,
            {
                out.push(found[i].as_str());
                i = i + 1;
            }
            assert(texts(out@) =~= views(referents(found@)));
            proof {
                lemma_missing_names(names@, installed@);
            }
        },
        None => {
            reveal(Seq::filter);
            assert(texts(out@) =~= names_missing(wanted_names(*wanted), installed@));
        },
    }
    out
}

/// Finds the wanted packages that are not installed: of each sort, the
/// wanted names that are not among the installed ones, in the wanted order,
/// a name that is wanted twice still twice.
pub fn find_missing_packages<'a>(desired: &'a Brew, installed: &InstalledBrewPackages) -> (missing:
    MissingBrewPackages<'a>)
    ensures
        texts(missing.formulae@) == names_missing(
            wanted_names(desired.formulae),
            installed.formulae@,
        ),
        texts(missing.casks@) == names_missing(wanted_names(desired.casks), installed.casks@),
{
    MissingBrewPackages {
        formulae: missing_names(&desired.formulae, &installed.formulae),
        casks: missing_names(&desired.casks, &installed.casks),
    }
}

/// The command that lists the installed formulae that nothing depends on.
pub fn list_formulae_command() -> (r: Command)
    ensures
        r@ == CommandView::of("brew"@).arg("leaves"@),
{
    Command::new("brew").arg("leaves")
}

/// The command that lists the installed casks.
pub fn list_casks_command() -> (r: Command)
    ensures
        r@ == CommandView::of("brew"@).arg("list"@).arg("--casks"@),
{
    Command::new("brew").arg("list").arg("--casks")
}

/// Reads the names that a listing printed, one on each line.
pub fn read_names(listing: &Execution) -> (r: Result<StringHashSet, SetupError>)
    ensures
        match printed_lines(listing@) {
            Ok(names) => r matches Ok(set) && set@ == name_set(names),
            Err(e) => r matches Err(x) && x@ == e,
        },
{
    match read_lines(listing) {
        Ok(names) => Ok(collect_names(names)),
        Err(e) => Err(e),
    }
}

/// Reads the installed packages from what the two listings printed. An
/// error of the listing of formulae comes before one of the listing of
/// casks.
pub fn get_installed_brew_packages(formulae: &Execution, casks: &Execution) -> (r: Result<
    InstalledBrewPackages,
    SetupError,
>)
    ensures
        match (printed_lines(formulae@), printed_lines(casks@)) {
            (Err(e), _) => r matches Err(x) && x@ == e,
            (Ok(_), Err(e)) => r matches Err(x) && x@ == e,
            (Ok(f), Ok(c)) => r matches Ok(p) && p.formulae@ == name_set(f) && p.casks@
                == name_set(c),
        },
{
    let formulae = match read_names(formulae) {
        Ok(set) => set,
        Err(e) => {
            return Err(e);
        },
    };
    let casks = match read_names(casks) {
        Ok(set) => set,
        Err(e) => {
            return Err(e);
        },
    };
    Ok(InstalledBrewPackages { formulae, casks })
}

/// Tells from what came of the probe whether the package manager is there:
/// it is exactly when the probe ran, exited well and printed UTF-8.
pub fn check_brew_installed(found: &Execution) -> (r: Result<(), SetupError>)
    ensures
        r is Ok <==> located("brew"@, found@) is Ok,
        r matches Err(e) ==> e@ == SetupErrorView::BrewNotFound,
{
    match command("brew", found) {
        Ok(_) => Ok(()),
        Err(_) => Err(SetupError::BrewNotFound),
    }
}

/// The installation of the formula `name`.
pub open spec fn formula_step(name: Seq<char>) -> InstallStepView {
    InstallStepView {
        command: CommandView::of("brew"@).arg("install"@).arg(name),
        on_failure: SetupErrorView::BrewInstallFailed,
    }
}

/// The installation of the cask `name`.
pub open spec fn cask_step(name: Seq<char>) -> InstallStepView {
    InstallStepView {
        command: CommandView::of("brew"@).arg("install"@).arg("--cask"@).arg(name),
        on_failure: SetupErrorView::BrewInstallFailed,
    }
}

/// The installations for the missing packages: one for each formula, then
/// one for each cask, in their order.
pub open spec fn package_steps(formulae: Seq<Seq<char>>, casks: Seq<Seq<char>>) -> Seq<
    InstallStepView,
> {
    Seq::new(formulae.len(), |i: int| formula_step(formulae[i])) + Seq::new(
        casks.len(),
        |i: int| cask_step(casks[i]),
    )
}

/// Begins the installation of the missing packages.
pub fn install_missing_packages(missing: &MissingBrewPackages) -> (run: InstallRun)
    ensures
        run@ == InstallRunView::initial(
            package_steps(texts(missing.formulae@), texts(missing.casks@)),
        ),
        run@.wf(),
{
    let mut steps: Vec<InstallStep> = Vec::new();
    let mut i: usize = 0;
    while i < missing.formulae.len()
        invariant
            i <= missing.formulae.len(),
            steps@.len() == i,
            forall|j: int|
                0 <= j < i ==> (#[trigger] steps@[j])@ == formula_step(missing.formulae@[j]@),
        decreases missing.formulae.len() - i,
    {
        steps.push(
            InstallStep {
                command: Command::new("brew").arg("install").arg(missing.formulae[i]),
                on_failure: SetupError::BrewInstallFailed,
            },
        );
        i = i + 1;
    }
    let count = missing.formulae.len();
    let mut k: usize = 0;
    while k < missing.casks.len()
        invariant
            k <= missing.casks.len(),
            count == missing.formulae.len(),
            steps@.len() == count + k,
            forall|j: int|
                0 <= j < count ==> (#[trigger] steps@[j])@ == formula_step(
                    missing.formulae@[j]@,
                ),
            forall|j: int|
                count <= j < count + k ==> (#[trigger] steps@[j])@ == cask_step(
                    missing.casks@[j - count]@,
                ),
        decreases missing.casks.len() - k,
    {
        steps.push(
            InstallStep {
                command: Command::new("brew").arg("install").arg("--cask").arg(
                    missing.casks[k],
                ),
                on_failure: SetupError::BrewInstallFailed,
            },
        );
        k = k + 1;
    }
    assert(views(steps@) =~= package_steps(texts(missing.formulae@), texts(missing.casks@)));
    InstallRun::new(steps)
}

} // verus!
