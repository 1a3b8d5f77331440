//! What is wanted and not there, and how it is installed.
//!
//! The wanted things of one kind form a sequence; the things that are there
//! form a set of identities. What is missing is the wanted sequence without
//! the things whose identity is in the set: in the wanted order, and with a
//! thing that is wanted twice still twice in it. [`InstallRun`] then runs one
//! command for each missing thing and stops at the first that fails.

use crate::errors::{SetupError, SetupErrorView};
use crate::model::{option_view, views};
use crate::system_utils::{Command, CommandView, Execution, ExecutionView};
use vstd::hash_set::StringHashSet;
use vstd::prelude::*;

verus! {

/// A thing that is known by an identity.
pub trait Identified {
    /// The identity by which the thing is looked up among what is there.
    spec fn identity(&self) -> Seq<char>;

    /// The identity by which the thing is looked up among what is there.
    fn key(&self) -> (r: String)
        ensures
            r@ == self.identity(),
    ;
}

impl Identified for String {
    open spec fn identity(&self) -> Seq<char> {
        self@
    }

    fn key(&self) -> (r: String) {
        self.clone()
    }
}

/// The wanted things that are not there: those of `desired` whose identity
/// is not in `actual`, in the order of `desired`, each as often as it stands
/// there.
pub open spec fn missing_of<R: Identified>(desired: Seq<R>, actual: Set<Seq<char>>) -> Seq<R> {
    desired.filter(not_among(actual))
}

/// The test that a thing's identity is not in `actual`.
pub open spec fn not_among<R: Identified>(actual: Set<Seq<char>>) -> spec_fn(R) -> bool {
    |r: R| !actual.contains(r.identity())
}

/// What a sequence of references refers to.
pub open spec fn referents<R>(s: Seq<&R>) -> Seq<R> {
    Seq::new(s.len(), |i: int| *s[i])
}

/// The set of the names in `names`.
pub open spec fn name_set(names: Seq<Seq<char>>) -> Set<Seq<char>> {
    Set::new(|n: Seq<char>| names.contains(n))
}

/// Collects `names` into a set.
pub fn collect_names(names: Vec<String>) -> (set: StringHashSet)
    ensures
        set@ == name_set(views(names@)),
{
    let mut set = StringHashSet::new();
    let mut i: usize = 0;
    assert(set@ =~= name_set(views(names@).take(0)));
    while i < names.len()
        invariant
            i <= names.len(),
            set@ == name_set(views(names@).take(i as int)),
        decreases names.len() - i,
    {
        let ghost before = views(names@).take(i as int);
        set.insert(names[i].clone());
        proof {
            let after = views(names@).take(i + 1);
            assert(after =~= before.push(names@[i as int]@));
            assert forall|n: Seq<char>| name_set(after).contains(n) == set@.contains(n) by {
                if before.contains(n) {
                    let j = choose|j: int| 0 <= j < before.len() && before[j] == n;
                    assert(after[j] == n);
                }
                if n == names@[i as int]@ {
                    assert(after[i as int] == n);
                }
            }
            assert(set@ =~= name_set(after));
        }
        i = i + 1;
    }
    assert(views(names@).take(i as int) =~= views(names@));
    set
}

/// One more wanted thing is one more missing thing exactly when its
/// identity is not there.
pub proof fn lemma_missing_push<R: Identified>(desired: Seq<R>, last: R, actual: Set<Seq<char>>)
    ensures
        missing_of(desired.push(last), actual) == if actual.contains(last.identity()) {
            missing_of(desired, actual)
        } else {
            missing_of(desired, actual).push(last)
        },
{
    reveal(Seq::filter);
    assert(desired.push(last).drop_last() =~= desired);
}

/// The test that a name is not in `actual`.
pub open spec fn not_in(actual: Set<Seq<char>>) -> spec_fn(Seq<char>) -> bool {
    |n: Seq<char>| !actual.contains(n)
}

/// The names of `names` that are not in `actual`, in their order, each as
/// often as it stands there.
pub open spec fn names_missing(names: Seq<Seq<char>>, actual: Set<Seq<char>>) -> Seq<Seq<char>> {
    names.filter(not_in(actual))
}

/// Of wanted things that are known by their text, the texts of the missing
/// ones are the missing ones of the texts.
pub proof fn lemma_missing_names(desired: Seq<String>, actual: Set<Seq<char>>)
    ensures
        views(missing_of(desired, actual)) == names_missing(views(desired), actual),
    decreases desired.len(),
{
    reveal(Seq::filter);
    if desired.len() > 0 {
        lemma_missing_names(desired.drop_last(), actual);
        assert(views(desired).drop_last() =~= views(desired.drop_last()));
        assert(views(desired).last() == desired.last()@);
        assert(views(missing_of(desired.drop_last(), actual).push(desired.last())) =~= views(
            missing_of(desired.drop_last(), actual),
        ).push(desired.last()@));
    }
    assert(views(missing_of(desired, actual)) =~= names_missing(views(desired), actual));
}

/// Tells whether a thing with this identity is there.
pub fn is_present(identity: &str, actual: &StringHashSet) -> (r: bool)
    ensures
        r == actual@.contains(identity@),
{
    actual.contains(identity)
}

/// Finds the wanted things that are not there.
pub fn find_missing<'a, R: Identified>(desired: &'a Vec<R>, actual: &StringHashSet) -> (missing:
    Vec<&'a R>)
    ensures
        referents(missing@) == missing_of(desired@, actual@),
{
    let mut missing: Vec<&'a R> = Vec::new();
    let mut i: usize = 0;
    proof {
        reveal(Seq::filter);
        assert(desired@.take(0) =~= Seq::<R>::empty());
        assert(referents(missing@) =~= missing_of(desired@.take(0), actual@));
    }
    while i < desired.len()
        invariant
            i <= desired.len(),
            referents(missing@) == missing_of(desired@.take(i as int), actual@),
        decreases desired.len() - i,
    {
        let item = &desired[i];
        let key = item.key();
        let ghost before = referents(missing@);
        proof {
            lemma_missing_push(desired@.take(i as int), *item, actual@);
            assert(desired@.take(i as int).push(*item) =~= desired@.take(i + 1));
        }
        if !is_present(key.as_str(), actual) {
            missing.push(item);
            assert(referents(missing@) =~= before.push(*item));
        }
        i = i + 1;
    }
    assert(desired@.take(i as int) =~= desired@);
    missing
}

/// What is missing is made of wanted things that are not there, and holds
/// every wanted thing that is not there.
pub proof fn lemma_missing_members<R: Identified>(desired: Seq<R>, actual: Set<Seq<char>>)
    ensures
        forall|k: int|
            0 <= k < missing_of(desired, actual).len() ==> desired.contains(
                #[trigger] missing_of(desired, actual)[k],
            ) && !actual.contains(missing_of(desired, actual)[k].identity()),
        forall|k: int|
            0 <= k < desired.len() && !actual.contains((#[trigger] desired[k]).identity())
                ==> missing_of(desired, actual).contains(desired[k]),
{
    let keep = not_among::<R>(actual);
    assert forall|k: int| 0 <= k < missing_of(desired, actual).len() implies desired.contains(
        #[trigger] missing_of(desired, actual)[k],
    ) && !actual.contains(missing_of(desired, actual)[k].identity()) by {
        let x = missing_of(desired, actual)[k];
        desired.lemma_filter_pred(keep, k);
        assert(desired.filter(keep).contains(x));
        desired.lemma_filter_contains_rev(keep, x);
    }
    assert forall|k: int|
        0 <= k < desired.len() && !actual.contains(
            (#[trigger] desired[k]).identity(),
        ) implies missing_of(desired, actual).contains(desired[k]) by {
        desired.lemma_filter_contains(keep, k);
    }
}

/// Nothing is missing once what was missing is there. Where `later` holds
/// all of `actual` and the identity of every thing that was missing, no
/// wanted thing is missing from `later`: a second run installs nothing.
pub proof fn lemma_nothing_missing_once_installed<R: Identified>(
    desired: Seq<R>,
    actual: Set<Seq<char>>,
    later: Set<Seq<char>>,
)
    requires
        forall|x: Seq<char>| actual.contains(x) ==> later.contains(x),
        forall|k: int|
            0 <= k < missing_of(desired, actual).len() ==> later.contains(
                (#[trigger] missing_of(desired, actual)[k]).identity(),
            ),
    ensures
        missing_of(desired, later) == Seq::<R>::empty(),
{
    lemma_missing_members(desired, actual);
    lemma_missing_members(desired, later);
    if missing_of(desired, later).len() > 0 {
        let x = missing_of(desired, later)[0];
        assert(desired.contains(x));
        let k = choose|k: int| 0 <= k < desired.len() && desired[k] == x;
        assert(!later.contains(desired[k].identity()));
        assert(!actual.contains(desired[k].identity()));
        assert(missing_of(desired, actual).contains(desired[k]));
        let j = choose|j: int|
            0 <= j < missing_of(desired, actual).len() && missing_of(desired, actual)[j]
                == desired[k];
        assert(later.contains(missing_of(desired, actual)[j].identity()));
    }
    assert(missing_of(desired, later) =~= Seq::<R>::empty());
}

/// One installation: the command to run, and the error to report where the
/// command exits with a failure.
#[derive(Debug, Clone, PartialEq, Eq)]
pub struct InstallStep {
    pub command: Command,
    pub on_failure: SetupError,
}

/// `InstallStep` as a value of mathematics.
pub struct InstallStepView {
    pub command: CommandView,
    pub on_failure: SetupErrorView,
}

impl View for InstallStep {
    type V = InstallStepView;

    open spec fn view(&self) -> InstallStepView {
        InstallStepView { command: self.command@, on_failure: self.on_failure@ }
    }
}

/// The state of a run of installations, as a value of mathematics.
pub struct InstallRunView {
    /// The installations, in the order in which they are made.
    pub steps: Seq<InstallStepView>,
    /// The number of installations that succeeded.
    pub pos: nat,
    /// The error that ended the run.
    pub error: Option<SetupErrorView>,
}

impl InstallRunView {
    /// The state in which a run begins.
    pub open spec fn initial(steps: Seq<InstallStepView>) -> InstallRunView {
        InstallRunView { steps, pos: 0, error: None }
    }

    /// What always holds of a run.
    pub open spec fn wf(self) -> bool {
        self.pos <= self.steps.len()
    }

    /// Whether the run has ended: every installation was made, or one
    /// failed.
    pub open spec fn finished(self) -> bool {
        self.error is Some || self.pos >= self.steps.len()
    }

    /// The command that the run wants carried out next; none once it has
    /// ended.
    pub open spec fn request(self) -> Option<CommandView> {
        if self.finished() {
            None
        } else {
            Some(self.steps[self.pos as int].command)
        }
    }

    /// The state after the pending command came to `reply`. A command that
    /// could not be started or that exited with a failure ends the run; the
    /// installations behind it are not made.
    pub open spec fn step(self, reply: ExecutionView) -> InstallRunView {
        if self.finished() {
            self
        } else {
            match reply {
                ExecutionView::NotStarted(m) => InstallRunView {
                    error: Some(SetupErrorView::IoError(m)),
                    ..self
                },
                ExecutionView::Exited { success, .. } => if success {
                    InstallRunView { pos: self.pos + 1, ..self }
                } else {
                    InstallRunView {
                        error: Some(self.steps[self.pos as int].on_failure),
                        ..self
                    }
                },
            }
        }
    }

    /// How the run ended; nothing while it goes on.
    pub open spec fn outcome(self) -> Option<Result<(), SetupErrorView>> {
        match self.error {
            Some(e) => Some(Err(e)),
            None => if self.pos >= self.steps.len() {
                Some(Ok(()))
            } else {
                None
            },
        }
    }

    /// The number of commands that the run still wants at most.
    pub open spec fn budget(self) -> nat {
        if self.finished() {
            0
        } else {
            (self.steps.len() - self.pos) as nat
        }
    }
}

/// A run of installations, one command at a time.
///
/// The caller runs the command that [`InstallRun::pending`] gives and hands
/// what came of it to [`InstallRun::advance`], until no command is pending;
/// then [`InstallRun::outcome`] says how the run ended.
#[derive(Debug)]
pub struct InstallRun {
    steps: Vec<InstallStep>,
    pos: usize,
    error: Option<SetupError>,
}

impl View for InstallRun {
    type V = InstallRunView;

    closed spec fn view(&self) -> InstallRunView {
        InstallRunView {
            steps: views(self.steps@),
            pos: self.pos as nat,
            error: option_view(self.error),
        }
    }
}

impl InstallRun {
    /// Begins a run of `steps`.
    pub fn new(steps: Vec<InstallStep>) -> (run: InstallRun)
        ensures
            run@ == InstallRunView::initial(views(steps@)),
            run@.wf(),
    {
        InstallRun { steps, pos: 0, error: None }
    }

    /// The command that the caller has to run next; none once the run has
    /// ended.
    pub fn pending(&self) -> (r: Option<Command>)
        requires
            self@.wf(),
        ensures
            option_view(r) == self@.request(),
    {
        if self.error.is_some() || self.pos >= self.steps.len() {
            None
        } else {
            Some(self.steps[self.pos].command.duplicate())
        }
    }

    /// Whether the run has ended.
    pub fn is_finished(&self) -> (r: bool)
        ensures
            r == self@.finished(),
    {
        self.error.is_some() || self.pos >= self.steps.len()
    }

    /// How the run ended; nothing while it goes on.
    pub fn outcome(&self) -> (r: Option<Result<(), SetupError>>)
        ensures
            match self@.outcome() {
                None => r is None,
                Some(Ok(())) => r == Some(Ok::<(), SetupError>(())),
                Some(Err(e)) => r matches Some(Err(x)) && x@ == e,
            },
    {
        match &self.error {
            Some(e) => Some(Err(e.duplicate())),
            None => if self.pos >= self.steps.len() {
                Some(Ok(()))
            } else {
                None
            },
        }
    }

    /// Takes what came of the pending command and decides what comes next.
    /// What is handed in after the run has ended changes nothing.
    pub fn advance(&mut self, reply: &Execution)
        requires
            old(self)@.wf(),
        ensures
            final(self)@ == old(self)@.step(reply@),
            final(self)@.wf(),
    {
        if self.error.is_some() || self.pos >= self.steps.len() {
            return ;
        }
        match reply {
            Execution::NotStarted(m) => {
                self.error = Some(SetupError::IoError(m.clone()));
            },
            Execution::Exited(output) => {
                if output.success {
                    self.pos = self.pos + 1;
                } else {
                    self.error = Some(self.steps[self.pos].on_failure.duplicate());
                }
            },
        }
    }
}

/// Every command that comes back uses up some of the run's budget: a run
/// wants at most one command for each installation.
pub proof fn lemma_install_step_spends_budget(run: InstallRunView, reply: ExecutionView)
    requires
        run.wf(),
        !run.finished(),
    ensures
        run.step(reply).wf(),
        run.step(reply).budget() < run.budget(),
        run.step(reply).steps == run.steps,
{
}

/// The run stops at the first failure: after a command that could not be
/// started or that exited with a failure, nothing more is wanted, whatever
/// is left to install.
pub proof fn lemma_failure_ends_run(run: InstallRunView, reply: ExecutionView)
    requires
        run.wf(),
        !run.finished(),
        !(reply matches ExecutionView::Exited { success: true, .. }),
    ensures
        run.step(reply).request() is None,
        run.step(reply).outcome() matches Some(Err(_)),
{
}

/// A world that answers every command the same way each time.
pub type Outcomes = spec_fn(CommandView) -> ExecutionView;

impl InstallRunView {
    /// The commands that the run wants, in order, while `world` answers
    /// them.
    pub open spec fn requests(self, world: Outcomes) -> Seq<CommandView>
        decreases self.budget(),
    {
        if self.wf() && !self.finished() {
            proof {
                lemma_install_step_spends_budget(self, world(self.request()->0));
            }
            seq![self.request()->0] + self.step(world(self.request()->0)).requests(world)
        } else {
            Seq::empty()
        }
    }

    /// The state in which the run ends while `world` answers its commands.
    pub open spec fn finish(self, world: Outcomes) -> InstallRunView
        decreases self.budget(),
    {
        if self.wf() && !self.finished() {
            proof {
                lemma_install_step_spends_budget(self, world(self.request()->0));
            }
            self.step(world(self.request()->0)).finish(world)
        } else {
            self
        }
    }

    /// The commands of the installations from `from` on.
    pub open spec fn commands_from(self, from: nat) -> Seq<CommandView> {
        Seq::new((self.steps.len() - from) as nat, |i: int| self.steps[from + i].command)
    }
}

/// Where every command succeeds, the run wants exactly one command for each
/// installation that is left, in the order of the installations, and ends
/// well.
pub proof fn lemma_installs_each_in_order(run: InstallRunView, world: Outcomes)
    requires
        run.wf(),
        run.error is None,
        forall|i: int|
            run.pos <= i < run.steps.len() ==> world(
                (#[trigger] run.steps[i]).command,
            ) matches ExecutionView::Exited { success: true, .. },
    ensures
        run.requests(world) == run.commands_from(run.pos),
        run.finish(world).outcome() == Some(Ok::<(), SetupErrorView>(())),
    decreases run.budget(),
{
    if !run.finished() {
        let asked = run.request()->0;
        let next = run.step(world(asked));
        assert(asked == run.steps[run.pos as int].command);
        lemma_install_step_spends_budget(run, world(asked));
        lemma_installs_each_in_order(next, world);
        assert(run.requests(world) == seq![asked] + next.requests(world));
        assert(run.finish(world) == next.finish(world));
        assert(run.requests(world) =~= run.commands_from(run.pos));
    } else {
        assert(run.requests(world) =~= run.commands_from(run.pos));
    }
}

/// Where nothing is missing, nothing is installed: a run without
/// installations wants no command and has ended well.
pub proof fn lemma_nothing_to_install(world: Outcomes)
    ensures
        InstallRunView::initial(Seq::empty()).request() is None,
        InstallRunView::initial(Seq::empty()).requests(world) == Seq::<CommandView>::empty(),
        InstallRunView::initial(Seq::empty()).outcome() == Some(Ok::<(), SetupErrorView>(())),
{
}

} // verus!
