//! Extensions of the editor.
//!
//! The editor lists the identifiers of the installed extensions in small
//! letters, whatever their case is in the marketplace. A wanted extension is
//! therefore looked up by its identifier in small letters, and installed by
//! its identifier as the configuration writes it.

use crate::errors::{SetupError, SetupErrorView};
use crate::model::views;
use crate::reconcile::{is_present, missing_of, name_set, referents, Identified, InstallRun, InstallRunView, InstallStep, InstallStepView};
use crate::system_utils::{decode, decoded, Command, CommandView, Execution, ExecutionView};
use crate::text::{lines, split_lines, trim, trim_str};
use vstd::hash_set::StringHashSet;
use vstd::prelude::*;

verus! {

/// The wanted extensions.
#[derive(Debug, Clone, PartialEq, Eq)]
pub struct Vscode {
    /// The extensions to install, in the order in which they are installed.
    pub extensions: Vec<ExtensionIdentifier>,
}

/// The identifier of an extension, of the form `publisher.name`. It is not
/// taken apart: it is handed to the editor as it is.
#[derive(Debug, Clone, PartialEq, Eq, Hash)]
pub struct ExtensionIdentifier(pub String);

impl View for ExtensionIdentifier {
    type V = Seq<char>;

    open spec fn view(&self) -> Seq<char> {
        self.0@
    }
}

/// What `str::to_lowercase` returns for a text: the text in small letters,
/// by the rules of Unicode.
pub uninterp spec fn lowercase_of(s: Seq<char>) -> Seq<char>;

/// Calls `str::to_lowercase`, whose result depends on the text alone.
#[verifier::external_body]
fn str_to_lowercase(s: &str) -> (r: String)
    ensures
        r@ == lowercase_of(s@),
{
    s.to_lowercase()
}

impl ExtensionIdentifier {
    /// The identifier in small letters.
    pub fn to_lowercase(&self) -> (r: ExtensionIdentifier)
        ensures
            r@ == lowercase_of(self@),
    {
        ExtensionIdentifier(str_to_lowercase(self.0.as_str()))
    }

    /// The identifier as text.
    pub fn as_str(&self) -> (r: &str)
        ensures
            r@ == self@,
    {
        self.0.as_str()
    }
}

impl Identified for ExtensionIdentifier {
    /// An extension is looked up by its identifier in small letters.
    open spec fn identity(&self) -> Seq<char> {
        lowercase_of(self@)
    }

    fn key(&self) -> (r: String) {
        self.to_lowercase().0
    }
}

/// The command that lists the installed extensions.
pub fn list_command() -> (r: Command)
    ensures
        r@ == CommandView::of("code"@).arg("--list-extensions"@),
{
    Command::new("code").arg("--list-extensions")
}

/// The text of the error for a listing that failed.
pub open spec fn listing_failed_message(stderr: Seq<char>) -> Seq<char> {
    "Failed to get installed VS Code extensions: "@ + stderr
}

/// The lines of `all`, each without the white space around it.
pub open spec fn trimmed_lines(all: Seq<Seq<char>>) -> Seq<Seq<char>> {
    Seq::new(all.len(), |i: int| trim(all[i]))
}

/// The identifiers of the installed extensions, from what came of the
/// listing: one on each line, without the white space around it. A listing
/// that exited with a failure is an `InstallFailed` that holds what the
/// listing wrote to its standard error.
pub open spec fn installed_extensions(listing: ExecutionView) -> Result<
    Set<Seq<char>>,
    SetupErrorView,
> {
    match listing {
        ExecutionView::NotStarted(m) => Err(SetupErrorView::IoError(m)),
        ExecutionView::Exited { success, stdout, stderr } => if success {
            match decoded(stdout) {
                Some(text) => Ok(name_set(trimmed_lines(lines(text)))),
                None => Err(SetupErrorView::Utf8Error),
            }
        } else {
            match decoded(stderr) {
                Some(text) => Err(SetupErrorView::InstallFailed(listing_failed_message(text))),
                None => Err(SetupErrorView::Utf8Error),
            }
        },
    }
}

/// Reads the identifiers of the installed extensions from what came of the
/// listing.
pub fn get_installed_extensions(listing: &Execution) -> (r: Result<StringHashSet, SetupError>)
    ensures
        match installed_extensions(listing@) {
            Ok(ids) => r matches Ok(set) && set@ == ids,
            Err(e) => r matches Err(x) && x@ == e,
        },
{
    match listing {
        Execution::NotStarted(m) => Err(SetupError::IoError(m.clone())),
        Execution::Exited(output) => {
            if !output.success {
                return match decode(output.stderr.as_slice()) {
                    Some(text) => {
                        let mut m = "Failed to get installed VS Code extensions: ".to_owned();
                        m.append(text.as_str());
                        Err(SetupError::InstallFailed(m))
                    },
                    None => Err(SetupError::Utf8Error),
                };
            }
            let text = match decode(output.stdout.as_slice()) {
                Some(text) => text,
                None => {
                    return Err(SetupError::Utf8Error);
                },
            };
            let all = split_lines(text.as_str());
            let mut set = StringHashSet::new();
            let mut i: usize = 0;
            let ghost wanted = trimmed_lines(views(all@));
            assert(set@ =~= name_set(wanted.take(0)));
            while i < all.len()
                invariant
                    i <= all.len(),
                    wanted == trimmed_lines(views(all@)),
                    set@ == name_set(wanted.take(i as int)),
                decreases all.len() - i,
            {
                let ghost before = wanted.take(i as int);
                set.insert(trim_str(all[i].as_str()));
                proof {
                    let after = wanted.take(i + 1);
                    assert(after =~= before.push(wanted[i as int]));
                    assert forall|n: Seq<char>| name_set(after).contains(n) == set@.contains(
                        n,
                    ) by {
                        if before.contains(n) {
                            let j = choose|j: int| 0 <= j < before.len() && before[j] == n;
                            assert(after[j] == n);
                        }
                        if n == wanted[i as int] {
                            assert(after[i as int] == n);
                        }
                    }
                    assert(set@ =~= name_set(after));
                }
                i = i + 1;
            }
            assert(wanted.take(i as int) =~= wanted);
            Ok(set)
        },
    }
}

/// The wanted extensions that are not installed, given the identifier in
/// small letters of each: those of `extensions` whose identifier in `keys`,
/// at the same place, is not in `installed`, in their order.
pub open spec fn unlisted(
    extensions: Seq<ExtensionIdentifier>,
    keys: Seq<Seq<char>>,
    installed: Set<Seq<char>>,
) -> Seq<ExtensionIdentifier>
    decreases extensions.len(),
{
    if extensions.len() == 0 || keys.len() != extensions.len() {
        Seq::empty()
    } else if installed.contains(keys.last()) {
        unlisted(extensions.drop_last(), keys.drop_last(), installed)
    } else {
        unlisted(extensions.drop_last(), keys.drop_last(), installed).push(extensions.last())
    }
}

/// Picks the wanted extensions that are not installed, given the identifier
/// in small letters of each.
pub fn select_missing<'a>(
    extensions: &'a Vec<ExtensionIdentifier>,
    keys: &Vec<String>,
    installed: &StringHashSet,
) -> (missing: Vec<&'a ExtensionIdentifier>)
    requires
        keys.len() == extensions.len(),
    ensures
        referents(missing@) == unlisted(extensions@, views(keys@), installed@),
{
    let mut missing: Vec<&'a ExtensionIdentifier> = Vec::new();
    let mut i: usize = 0;
    assert(referents(missing@) =~= unlisted(
        extensions@.take(0),
        views(keys@).take(0),
        installed@,
    ));
    while i < extensions.len()
        invariant
            i <= extensions.len(),
            keys.len() == extensions.len(),
            referents(missing@) == unlisted(
                extensions@.take(i as int),
                views(keys@).take(i as int),
                installed@,
            ),
        decreases extensions.len() - i,
    {
        let ghost before = referents(missing@);
        proof {
            assert(extensions@.take(i + 1).drop_last() =~= extensions@.take(i as int));
            assert(views(keys@).take(i + 1).drop_last() =~= views(keys@).take(i as int));
            assert(views(keys@).take(i + 1).last() == keys@[i as int]@);
        }
        if !is_present(keys[i].as_str(), installed) {
            missing.push(&extensions[i]);
            assert(referents(missing@) =~= before.push(extensions@[i as int]));
        }
        i = i + 1;
    }
    assert(extensions@.take(i as int) =~= extensions@);
    assert(views(keys@).take(i as int) =~= views(keys@));
    missing
}

/// The installation of the extension `id`.
pub open spec fn extension_step(id: Seq<char>) -> InstallStepView {
    InstallStepView {
        command: CommandView::of("code"@).arg("--install-extension"@).arg(id),
        on_failure: SetupErrorView::InstallFailed("vscode extension install failed: "@ + id),
    }
}

impl Vscode {
    /// Finds the wanted extensions that are not installed: those whose
    /// identifier in small letters is not among the installed ones, in the
    /// wanted order.
    pub fn missing_extensions<'a>(&'a self, installed: &StringHashSet) -> (missing: Vec<
        &'a ExtensionIdentifier,
    >)
        ensures
            referents(missing@) == missing_of(self.extensions@, installed@),
    {
        let mut keys: Vec<String> = Vec::new();
        let mut i: usize = 0;
        while i < self.extensions.len()
            invariant
                i <= self.extensions.len(),
                keys@.len() == i,
                forall|j: int|
                    0 <= j < i ==> (#[trigger] keys@[j])@ == lowercase_of(self.extensions@[j]@),
            decreases self.extensions.len() - i,
        {
            keys.push(self.extensions[i].key());
            i = i + 1;
        }
        proof {
            lemma_unlisted_is_missing(self.extensions@, views(keys@), installed@);
        }
        select_missing(&self.extensions, &keys, installed)
    }

    /// Begins the installation of the wanted extensions that are not
    /// installed: one installation for each, in the wanted order, under the
    /// identifier as the configuration writes it.
    pub fn install_missing_extensions(&self, installed: &StringHashSet) -> (run: InstallRun)
        ensures
            run@ == InstallRunView::initial(
                Seq::new(
                    missing_of(self.extensions@, installed@).len(),
                    |i: int| extension_step(missing_of(self.extensions@, installed@)[i]@),
                ),
            ),
            run@.wf(),
    {
        let missing = self.missing_extensions(installed);
        let mut steps: Vec<InstallStep> = Vec::new();
        let mut i: usize = 0;
        while i < missing.len()
            invariant
                i <= missing.len(),
                steps@.len() == i,
                forall|j: int|
                    0 <= j < i ==> (#[trigger] steps@[j])@ == extension_step(missing@[j]@),
            decreases missing.len() - i,
        {
            let id = missing[i].as_str();
            let mut m = "vscode extension install failed: ".to_owned();
            m.append(id);
            steps.push(
                InstallStep {
                    command: Command::new("code").arg("--install-extension").arg(id),
                    on_failure: SetupError::InstallFailed(m),
                },
            );
            i = i + 1;
        }
        assert(views(steps@) =~= Seq::new(
            missing_of(self.extensions@, installed@).len(),
            |i: int| extension_step(missing_of(self.extensions@, installed@)[i]@),
        ));
        InstallRun::new(steps)
    }
}

/// Picking by the identifiers in small letters is finding what is missing:
/// where `keys` holds the identifier in small letters of each extension,
/// `unlisted` gives the extensions that are missing.
pub proof fn lemma_unlisted_is_missing(
    extensions: Seq<ExtensionIdentifier>,
    keys: Seq<Seq<char>>,
    installed: Set<Seq<char>>,
)
    requires
        keys.len() == extensions.len(),
        forall|i: int| 0 <= i < keys.len() ==> #[trigger] keys[i] == lowercase_of(extensions[i]@),
    ensures
        unlisted(extensions, keys, installed) == missing_of(extensions, installed),
    decreases extensions.len(),
{
    reveal(Seq::filter);
    if extensions.len() > 0 {
        lemma_unlisted_is_missing(extensions.drop_last(), keys.drop_last(), installed);
        assert(keys.last() == lowercase_of(extensions.last()@));
    }
}

} // verus!
