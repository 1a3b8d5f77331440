//! Linking dotfiles into place.
//!
//! Each declared entry names a file under the dotfiles directory and the
//! place where a symbolic link to it belongs. [`DotfileRun`] walks the
//! entries in order. It asks the caller one question or one change of the
//! file system at a time and decides from the answer what comes next, so
//! that a link that is right is left alone, a link that is wrong or broken
//! is replaced, and a file or directory in the way is never touched.

use crate::errors::{SetupError, SetupErrorView};
use crate::model::{option_view, views};
use crate::paths::{expand_home, join, join_path, parent, parent_path, tilde_expand};
use vstd::prelude::*;

verus! {

/// One declared dotfile.
#[derive(Debug, Clone, PartialEq, Eq)]
pub enum DotfileEntry {
    /// The link lies under the home directory where the file lies under the
    /// dotfiles directory.
    Implicit(String),
    /// The file, under the dotfiles directory, and the link, which may start
    /// with the home marker.
    Explicit { original: String, link: String },
}

/// `DotfileEntry` with its paths as sequences of characters.
pub enum DotfileEntryView {
    Implicit(Seq<char>),
    Explicit { original: Seq<char>, link: Seq<char> },
}

impl View for DotfileEntry {
    type V = DotfileEntryView;

    open spec fn view(&self) -> DotfileEntryView {
        match self {
            DotfileEntry::Implicit(p) => DotfileEntryView::Implicit(p@),
            DotfileEntry::Explicit { original, link } => DotfileEntryView::Explicit {
                original: original@,
                link: link@,
            },
        }
    }
}

/// The declared dotfiles, in the order in which they are linked.
#[derive(Debug, Clone, PartialEq, Eq)]
pub struct Dotfiles {
    pub files: Vec<DotfileEntry>,
}

impl View for Dotfiles {
    type V = Seq<DotfileEntryView>;

    open spec fn view(&self) -> Seq<DotfileEntryView> {
        views(self.files@)
    }
}

/// An entry with both of its paths resolved.
#[derive(Debug, Clone, PartialEq, Eq)]
pub struct LinkPlan {
    /// The file that the link must point at.
    pub original: String,
    /// The place of the link.
    pub link: String,
}

/// `LinkPlan` with its paths as sequences of characters.
pub struct LinkPlanView {
    pub original: Seq<char>,
    pub link: Seq<char>,
}

impl View for LinkPlan {
    type V = LinkPlanView;

    open spec fn view(&self) -> LinkPlanView {
        LinkPlanView { original: self.original@, link: self.link@ }
    }
}

/// Where the file and the link of `entry` lie, given the dotfiles directory
/// and the home directory.
pub open spec fn resolve(entry: DotfileEntryView, dir: Seq<char>, home: Seq<char>) -> LinkPlanView {
    match entry {
        DotfileEntryView::Implicit(p) => LinkPlanView {
            original: join(dir, p),
            link: join(home, p),
        },
        DotfileEntryView::Explicit { original, link } => LinkPlanView {
            original: join(dir, original),
            link: tilde_expand(link, home),
        },
    }
}

/// Every entry of `entries`, resolved.
pub open spec fn resolve_all(
    entries: Seq<DotfileEntryView>,
    dir: Seq<char>,
    home: Seq<char>,
) -> Seq<LinkPlanView> {
    Seq::new(entries.len(), |i: int| resolve(entries[i], dir, home))
}

/// Replaces a leading home marker of `path` by `home`.
pub fn tilde_expand_path(path: &str, home: &str) -> (r: Result<String, SetupError>)
    ensures
        r matches Ok(p) && p@ == tilde_expand(path@, home@),
{
    Ok(expand_home(path, home))
}

/// Resolves the two paths of `entry`.
pub fn resolve_entry(entry: &DotfileEntry, dir: &str, home: &str) -> (r: LinkPlan)
    ensures
        r@ == resolve(entry@, dir@, home@),
{
    match entry {
        DotfileEntry::Implicit(p) => LinkPlan {
            original: join_path(dir, p.as_str()),
            link: join_path(home, p.as_str()),
        },
        DotfileEntry::Explicit { original, link } => LinkPlan {
            original: join_path(dir, original.as_str()),
            link: expand_home(link.as_str(), home),
        },
    }
}

/// What lies at the place of a link.
#[derive(Debug, Clone, Copy, PartialEq, Eq, Structural)]
pub enum LinkState {
    /// Nothing.
    Absent,
    /// A symbolic link to the file.
    SymlinkCorrect,
    /// A symbolic link that leads somewhere else.
    SymlinkWrong,
    /// A symbolic link that leads nowhere.
    SymlinkBroken,
    /// A file or a directory.
    Occupied,
}

/// What is done about a link, by its state.
#[derive(Debug, Clone, Copy, PartialEq, Eq, Structural)]
pub enum LinkAction {
    /// Create the link.
    Create,
    /// Leave everything as it is.
    Keep,
    /// Remove the link that is there, then create the right one.
    Replace,
    /// Change nothing and fail the run.
    Refuse,
}

/// What was found at the place of a link.
pub enum Observation {
    /// Nothing is there.
    Nothing,
    /// Something that is not a symbolic link.
    NotALink,
    /// A symbolic link, and where it leads once every link on the way is
    /// followed; nowhere, where that cannot be found out.
    Link { leads_to: Option<Seq<char>> },
}

/// The state of a link, from what was found at its place and from where the
/// file that it must point at is found once every link on the way to it is
/// followed. A link is right when it leads to that same place, whatever the
/// text is that it holds.
pub open spec fn classify(seen: Observation, source: Seq<char>) -> LinkState {
    match seen {
        Observation::Nothing => LinkState::Absent,
        Observation::NotALink => LinkState::Occupied,
        Observation::Link { leads_to: Some(t) } => if t == source {
            LinkState::SymlinkCorrect
        } else {
            LinkState::SymlinkWrong
        },
        Observation::Link { leads_to: None } => LinkState::SymlinkBroken,
    }
}

impl LinkState {
    /// What is done about a link in this state.
    pub open spec fn action(self) -> LinkAction {
        match self {
            LinkState::Absent => LinkAction::Create,
            LinkState::SymlinkCorrect => LinkAction::Keep,
            LinkState::SymlinkWrong => LinkAction::Replace,
            LinkState::SymlinkBroken => LinkAction::Replace,
            LinkState::Occupied => LinkAction::Refuse,
        }
    }

    /// What is done about a link in this state.
    pub fn plan(self) -> (r: LinkAction)
        ensures
            r == self.action(),
    {
        match self {
            LinkState::Absent => LinkAction::Create,
            LinkState::SymlinkCorrect => LinkAction::Keep,
            LinkState::SymlinkWrong => LinkAction::Replace,
            LinkState::SymlinkBroken => LinkAction::Replace,
            LinkState::Occupied => LinkAction::Refuse,
        }
    }
}

/// A question about the file system, or a change of it, that the run asks
/// its caller to carry out.
#[derive(Debug, Clone, PartialEq, Eq)]
pub enum FsRequest {
    /// Does the path lead to something that exists, links followed?
    Exists(String),
    /// Create the directory and every missing directory above it.
    CreateDirAll(String),
    /// What is at the path itself, links not followed?
    Inspect(String),
    /// Where does the path lead, every symbolic link on the way followed?
    Resolve(String),
    /// Remove the symbolic link at the path.
    RemoveFile(String),
    /// Create a symbolic link at `link` that points at `original`.
    Symlink { original: String, link: String },
}

/// `FsRequest` with its paths as sequences of characters.
pub enum FsRequestView {
    Exists(Seq<char>),
    CreateDirAll(Seq<char>),
    Inspect(Seq<char>),
    Resolve(Seq<char>),
    RemoveFile(Seq<char>),
    Symlink { original: Seq<char>, link: Seq<char> },
}

impl View for FsRequest {
    type V = FsRequestView;

    open spec fn view(&self) -> FsRequestView {
        match self {
            FsRequest::Exists(p) => FsRequestView::Exists(p@),
            FsRequest::CreateDirAll(p) => FsRequestView::CreateDirAll(p@),
            FsRequest::Inspect(p) => FsRequestView::Inspect(p@),
            FsRequest::Resolve(p) => FsRequestView::Resolve(p@),
            FsRequest::RemoveFile(p) => FsRequestView::RemoveFile(p@),
            FsRequest::Symlink { original, link } => FsRequestView::Symlink {
                original: original@,
                link: link@,
            },
        }
    }
}

impl FsRequestView {
    /// Whether carrying the request out changes the file system.
    pub open spec fn mutates(self) -> bool {
        self is CreateDirAll || self is RemoveFile || self is Symlink
    }
}

impl FsRequest {
    /// Whether carrying the request out changes the file system.
    pub fn is_mutation(&self) -> (r: bool)
        ensures
            r == self@.mutates(),
    {
        match self {
            FsRequest::CreateDirAll(_) => true,
            FsRequest::RemoveFile(_) => true,
            FsRequest::Symlink { .. } => true,
            _ => false,
        }
    }
}

/// What the caller answers to a request.
#[derive(Debug, Clone, PartialEq, Eq)]
pub enum FsReply {
    /// To `Exists`: whether it does.
    Exists(bool),
    /// To a change: it was made.
    Done,
    /// To `Inspect`: nothing is there.
    Absent,
    /// To `Inspect`: something is there, a symbolic link or not.
    Found { is_symlink: bool },
    /// To `Resolve`: the path of what is found there.
    Resolved(String),
    /// To a change, `Inspect` or `Resolve`: the system refused, with its
    /// message.
    Failed(String),
}

/// `FsReply` with its texts as sequences of characters.
pub enum FsReplyView {
    Exists(bool),
    Done,
    Absent,
    Found { is_symlink: bool },
    Resolved(Seq<char>),
    Failed(Seq<char>),
}

impl View for FsReply {
    type V = FsReplyView;

    open spec fn view(&self) -> FsReplyView {
        match self {
            FsReply::Exists(b) => FsReplyView::Exists(*b),
            FsReply::Done => FsReplyView::Done,
            FsReply::Absent => FsReplyView::Absent,
            FsReply::Found { is_symlink } => FsReplyView::Found { is_symlink: *is_symlink },
            FsReply::Resolved(t) => FsReplyView::Resolved(t@),
            FsReply::Failed(m) => FsReplyView::Failed(m@),
        }
    }
}

/// Whether `reply` is an answer to `request`.
pub open spec fn answers(request: FsRequestView, reply: FsReplyView) -> bool {
    match request {
        FsRequestView::Exists(_) => reply is Exists,
        FsRequestView::CreateDirAll(_) => reply is Done || reply is Failed,
        FsRequestView::Inspect(_) => reply is Absent || reply is Found || reply is Failed,
        FsRequestView::Resolve(_) => reply is Resolved || reply is Failed,
        FsRequestView::RemoveFile(_) => reply is Done || reply is Failed,
        FsRequestView::Symlink { .. } => reply is Done || reply is Failed,
    }
}

/// Where a run stands.
#[derive(Debug, Clone, Copy, PartialEq, Eq, Structural)]
pub enum Phase {
    /// Asking whether the dotfiles directory exists.
    Start,
    /// Asking whether the file of the current entry exists.
    Source,
    /// Asking whether the directory of the link exists.
    Parent,
    /// Creating the directory of the link.
    MakeParent,
    /// Asking what is at the place of the link.
    Inspect,
    /// Asking where the file of the current entry is found.
    Locate,
    /// Asking where the link that is there leads.
    Follow,
    /// Removing the link that is there.
    Remove,
    /// Creating the link.
    Link,
    /// Nothing is left to do, or the run has failed.
    Finished,
}

/// The text of the error for a missing dotfiles directory.
pub open spec fn missing_dir_message(dir: Seq<char>) -> Seq<char> {
    "Dotfiles directory not found: "@ + dir
}

/// The text of the error for an unknown home directory.
pub open spec fn missing_home_message() -> Seq<char> {
    "Could not determine home directory."@
}

/// The text of the error for an entry whose file is missing.
pub open spec fn missing_original_message(original: Seq<char>) -> Seq<char> {
    "Original dotfile not found: "@ + original
}

/// The text of the error for a file or directory at the place of a link.
pub open spec fn occupied_message(link: Seq<char>) -> Seq<char> {
    "Link path already exists as a file/directory:"@ + link
        + "\nPlease manually backup and remove this file before running omiros again."@
}

/// The state of a run, as a value of mathematics.
pub struct DotfileRunView {
    /// The dotfiles directory.
    pub dir: Seq<char>,
    /// Whether the home directory is known.
    pub home_known: bool,
    /// The entries, resolved; empty where the home directory is not known.
    pub links: Seq<LinkPlanView>,
    /// The index of the current entry.
    pub pos: nat,
    /// Where the run stands.
    pub phase: Phase,
    /// Where the file of the current entry is found, once that is known.
    pub source: Option<Seq<char>>,
    /// The state of the link that was classified last.
    pub seen: Option<LinkState>,
    /// The error that ended the run.
    pub error: Option<SetupErrorView>,
}

impl DotfileRunView {
    /// The state in which a run begins.
    pub open spec fn initial(
        entries: Seq<DotfileEntryView>,
        dir: Seq<char>,
        home: Option<Seq<char>>,
    ) -> DotfileRunView {
        DotfileRunView {
            dir,
            home_known: home is Some,
            links: match home {
                Some(h) => resolve_all(entries, dir, h),
                None => Seq::empty(),
            },
            pos: 0,
            phase: Phase::Start,
            source: None,
            seen: None,
            error: None,
        }
    }

    /// The phases in which an entry is being worked on.
    pub open spec fn on_entry(self) -> bool {
        self.phase != Phase::Start && self.phase != Phase::Finished
    }

    /// What always holds of a run: while an entry is worked on it exists,
    /// while its directory is asked for or created it has one, while its link
    /// is followed its file has been found, and the run ends without an
    /// error only behind the last entry.
    pub open spec fn wf(self) -> bool {
        &&& self.on_entry() ==> self.pos < self.links.len() && self.home_known
        &&& (self.phase == Phase::Parent || self.phase == Phase::MakeParent) ==> parent(
            self.links[self.pos as int].link,
        ) is Some
        &&& self.phase == Phase::Follow ==> self.source is Some
        &&& self.error is Some ==> self.phase == Phase::Finished
        &&& self.phase == Phase::Finished && self.error is None ==> self.pos == self.links.len()
    }

    /// The current entry.
    pub open spec fn current(self) -> LinkPlanView {
        self.links[self.pos as int]
    }

    /// What the run asks for next; nothing once it has finished.
    pub open spec fn request(self) -> Option<FsRequestView> {
        match self.phase {
            Phase::Start => Some(FsRequestView::Exists(self.dir)),
            Phase::Source => Some(FsRequestView::Exists(self.current().original)),
            Phase::Parent => Some(FsRequestView::Exists(parent(self.current().link)->0)),
            Phase::MakeParent => Some(
                FsRequestView::CreateDirAll(parent(self.current().link)->0),
            ),
            Phase::Inspect => Some(FsRequestView::Inspect(self.current().link)),
            Phase::Locate => Some(FsRequestView::Resolve(self.current().original)),
            Phase::Follow => Some(FsRequestView::Resolve(self.current().link)),
            Phase::Remove => Some(FsRequestView::RemoveFile(self.current().link)),
            Phase::Link => Some(
                FsRequestView::Symlink {
                    original: self.current().original,
                    link: self.current().link,
                },
            ),
            Phase::Finished => None,
        }
    }

    /// Whether `reply` answers what the run asks for.
    pub open spec fn awaits(self, reply: FsReplyView) -> bool {
        self.request() matches Some(q) && answers(q, reply)
    }

    /// The run, failed with `error`.
    pub open spec fn fail(self, error: SetupErrorView) -> DotfileRunView {
        DotfileRunView { phase: Phase::Finished, error: Some(error), ..self }
    }

    /// The run in `phase`.
    pub open spec fn goto(self, phase: Phase) -> DotfileRunView {
        DotfileRunView { phase, ..self }
    }

    /// The run with the state of the current link recorded.
    pub open spec fn note(self, state: LinkState) -> DotfileRunView {
        DotfileRunView { seen: Some(state), ..self }
    }

    /// The run at the start of entry `i`, or finished where there is none.
    pub open spec fn enter(self, i: nat) -> DotfileRunView {
        if i < self.links.len() {
            DotfileRunView { pos: i, phase: Phase::Source, source: None, ..self }
        } else {
            DotfileRunView { pos: i, phase: Phase::Finished, source: None, ..self }
        }
    }

    /// The state after `reply` has come in.
    pub open spec fn step(self, reply: FsReplyView) -> DotfileRunView {
        match self.phase {
            Phase::Start => if reply != FsReplyView::Exists(true) {
                self.fail(SetupErrorView::DotfileError(missing_dir_message(self.dir)))
            } else if !self.home_known {
                self.fail(SetupErrorView::DotfileError(missing_home_message()))
            } else {
                self.enter(0)
            },
            Phase::Source => if reply != FsReplyView::Exists(true) {
                self.fail(
                    SetupErrorView::DotfileError(
                        missing_original_message(self.current().original),
                    ),
                )
            } else if parent(self.current().link) is Some {
                self.goto(Phase::Parent)
            } else {
                self.goto(Phase::Inspect)
            },
            Phase::Parent => if reply == FsReplyView::Exists(true) {
                self.goto(Phase::Inspect)
            } else {
                self.goto(Phase::MakeParent)
            },
            Phase::MakeParent => match reply {
                FsReplyView::Failed(m) => self.fail(SetupErrorView::IoError(m)),
                _ => self.goto(Phase::Inspect),
            },
            Phase::Inspect => match reply {
                FsReplyView::Absent => self.note(LinkState::Absent).goto(Phase::Link),
                FsReplyView::Found { is_symlink: true } => self.goto(Phase::Locate),
                FsReplyView::Failed(m) => self.fail(SetupErrorView::IoError(m)),
                _ => self.note(LinkState::Occupied).fail(
                    SetupErrorView::DotfileError(occupied_message(self.current().link)),
                ),
            },
            Phase::Locate => match reply {
                FsReplyView::Resolved(s) => DotfileRunView {
                    source: Some(s),
                    phase: Phase::Follow,
                    ..self
                },
                FsReplyView::Failed(m) => self.fail(SetupErrorView::IoError(m)),
                _ => self,
            },
            Phase::Follow => match reply {
                FsReplyView::Resolved(t) => if t == self.source->0 {
                    self.note(LinkState::SymlinkCorrect).enter(self.pos + 1)
                } else {
                    self.note(LinkState::SymlinkWrong).goto(Phase::Remove)
                },
                _ => self.note(LinkState::SymlinkBroken).goto(Phase::Remove),
            },
            Phase::Remove => match reply {
                FsReplyView::Failed(m) => self.fail(SetupErrorView::IoError(m)),
                _ => self.goto(Phase::Link),
            },
            Phase::Link => match reply {
                FsReplyView::Failed(m) => self.fail(SetupErrorView::IoError(m)),
                _ => self.enter(self.pos + 1),
            },
            Phase::Finished => self,
        }
    }

    /// How the run ended: nothing while it goes on.
    pub open spec fn outcome(self) -> Option<Result<(), SetupErrorView>> {
        if self.phase != Phase::Finished {
            None
        } else {
            match self.error {
                Some(e) => Some(Err(e)),
                None => Some(Ok(())),
            }
        }
    }

    /// An upper bound on the number of requests that the run still makes.
    pub open spec fn budget(self) -> nat {
        match self.phase {
            Phase::Start => 9 * self.links.len() + 9,
            Phase::Finished => 0,
            _ => (9 * (self.links.len() - self.pos) + match self.phase {
                Phase::Source => 0int,
                Phase::Parent => -1,
                Phase::MakeParent => -2,
                Phase::Inspect => -3,
                Phase::Locate => -4,
                Phase::Follow => -5,
                Phase::Remove => -6,
                _ => -7,
            }) as nat,
        }
    }
}

/// The linking of the declared dotfiles, one request at a time.
///
/// The caller carries out what [`DotfileRun::pending`] asks for and hands the
/// answer to [`DotfileRun::advance`], until nothing is pending; then
/// [`DotfileRun::outcome`] says how the run ended.
#[derive(Debug)]
pub struct DotfileRun {
    dir: String,
    home_known: bool,
    links: Vec<LinkPlan>,
    pos: usize,
    phase: Phase,
    source: Option<String>,
    seen: Option<LinkState>,
    error: Option<SetupError>,
}

impl View for DotfileRun {
    type V = DotfileRunView;

    closed spec fn view(&self) -> DotfileRunView {
        DotfileRunView {
            dir: self.dir@,
            home_known: self.home_known,
            links: views(self.links@),
            pos: self.pos as nat,
            phase: self.phase,
            source: option_view(self.source),
            seen: self.seen,
            error: option_view(self.error),
        }
    }
}

/// Begins the linking of `dotfiles`, which lie under `dotfiles_dir`, into
/// the home directory `home`.
pub fn setup_dotfiles(dotfiles: &Dotfiles, dotfiles_dir: &str, home: Option<&str>) -> (run:
    DotfileRun)
    ensures
        run@ == DotfileRunView::initial(
            dotfiles@,
            dotfiles_dir@,
            match home {
                Some(h) => Some(h@),
                None => None,
            },
        ),
        run@.wf(),
{
    let mut links: Vec<LinkPlan> = Vec::new();
    if let Some(h) = home {
        let mut i: usize = 0;
        while i < dotfiles.files.len()
            invariant
                i <= dotfiles.files.len(),
                links@.len() == i,
                forall|j: int|
                    0 <= j < i ==> (#[trigger] links@[j])@ == resolve(
                        dotfiles@[j],
                        dotfiles_dir@,
                        h@,
                    ),
            decreases dotfiles.files.len() - i,
        {
            let plan = resolve_entry(&dotfiles.files[i], dotfiles_dir, h);
            links.push(plan);
            i = i + 1;
        }
        assert(views(links@) =~= resolve_all(dotfiles@, dotfiles_dir@, h@));
    } else {
        assert(views(links@) =~= Seq::<LinkPlanView>::empty());
    }
    DotfileRun {
        dir: dotfiles_dir.to_owned(),
        home_known: home.is_some(),
        links,
        pos: 0,
        phase: Phase::Start,
        source: None,
        seen: None,
        error: None,
    }
}

impl DotfileRun {
    /// What the caller has to carry out next; nothing once the run has
    /// finished.
    pub fn pending(&self) -> (r: Option<FsRequest>)
        requires
            self@.wf(),
        ensures
            match self@.request() {
                Some(q) => r matches Some(x) && x@ == q,
                None => r is None,
            },
    {
        match self.phase {
            Phase::Start => Some(FsRequest::Exists(self.dir.clone())),
            Phase::Finished => None,
            Phase::Source => Some(FsRequest::Exists(self.links[self.pos].original.clone())),
            Phase::Parent => {
                let dir = parent_path(self.links[self.pos].link.as_str());
                match dir {
                    Some(d) => Some(FsRequest::Exists(d)),
                    None => None,
                }
            },
            Phase::MakeParent => {
                let dir = parent_path(self.links[self.pos].link.as_str());
                match dir {
                    Some(d) => Some(FsRequest::CreateDirAll(d)),
                    None => None,
                }
            },
            Phase::Inspect => Some(FsRequest::Inspect(self.links[self.pos].link.clone())),
            Phase::Locate => Some(FsRequest::Resolve(self.links[self.pos].original.clone())),
            Phase::Follow => Some(FsRequest::Resolve(self.links[self.pos].link.clone())),
            Phase::Remove => Some(FsRequest::RemoveFile(self.links[self.pos].link.clone())),
            Phase::Link => Some(
                FsRequest::Symlink {
                    original: self.links[self.pos].original.clone(),
                    link: self.links[self.pos].link.clone(),
                },
            ),
        }
    }

    /// Whether `reply` answers what is pending.
    pub fn accepts(&self, reply: &FsReply) -> (r: bool)
        requires
            self@.wf(),
        ensures
            r == self@.awaits(reply@),
    {
        match self.phase {
            Phase::Start | Phase::Source | Phase::Parent => match reply {
                FsReply::Exists(_) => true,
                _ => false,
            },
            Phase::MakeParent | Phase::Remove | Phase::Link => match reply {
                FsReply::Done => true,
                FsReply::Failed(_) => true,
                _ => false,
            },
            Phase::Inspect => match reply {
                FsReply::Absent => true,
                FsReply::Found { .. } => true,
                FsReply::Failed(_) => true,
                _ => false,
            },
            Phase::Locate | Phase::Follow => match reply {
                FsReply::Resolved(_) => true,
                FsReply::Failed(_) => true,
                _ => false,
            },
            Phase::Finished => false,
        }
    }

    /// Whether the run has ended.
    pub fn is_finished(&self) -> (r: bool)
        ensures
            r == (self@.phase == Phase::Finished),
            r == self@.request() is None,
    {
        match self.phase {
            Phase::Finished => true,
            _ => false,
        }
    }

    /// How the run ended; nothing while it goes on.
    pub fn outcome(&self) -> (r: Option<Result<(), SetupError>>)
        ensures
            match self@.outcome() {
                None => r is None,
                Some(Ok(())) => r == Some(Ok::<(), SetupError>(())),
                Some(Err(e)) => r matches Some(Err(x)) && x@ == e,
            },
    {
        match self.phase {
            Phase::Finished => match &self.error {
                Some(e) => Some(Err(e.duplicate())),
                None => Some(Ok(())),
            },
            _ => None,
        }
    }

    /// The state of the link that was classified last.
    pub fn seen(&self) -> (r: Option<LinkState>)
        ensures
            r == self@.seen,
    {
        self.seen
    }

    /// The index of the entry that the run works on.
    pub fn position(&self) -> (r: usize)
        ensures
            r == self@.pos,
    {
        self.pos
    }

    fn fail(&mut self, error: SetupError)
        ensures
            final(self)@ == old(self)@.fail(error@),
    {
        self.phase = Phase::Finished;
        self.error = Some(error);
    }

    fn enter(&mut self, i: usize)
        ensures
            final(self)@ == old(self)@.enter(i as nat),
    {
        self.pos = i;
        self.source = None;
        if i < self.links.len() {
            self.phase = Phase::Source;
        } else {
            self.phase = Phase::Finished;
        }
    }

    /// Takes the answer to what was pending and decides what comes next.
    pub fn advance(&mut self, reply: FsReply)
        requires
            old(self)@.wf(),
            old(self)@.awaits(reply@),
        ensures
            final(self)@ == old(self)@.step(reply@),
            final(self)@.wf(),
    {
        let count = self.links.len();
        assert(self@.on_entry() ==> self.pos < count);
        match self.phase {
            Phase::Start => {
                let exists = match reply {
                    FsReply::Exists(b) => b,
                    _ => false,
                };
                if !exists {
                    let mut m = "Dotfiles directory not found: ".to_owned();
                    m.append(self.dir.as_str());
                    self.fail(SetupError::DotfileError(m));
                } else if !self.home_known {
                    self.fail(
                        SetupError::DotfileError(
                            "Could not determine home directory.".to_owned(),
                        ),
                    );
                } else {
                    self.enter(0);
                }
            },
            Phase::Source => {
                let exists = match reply {
                    FsReply::Exists(b) => b,
                    _ => false,
                };
                if !exists {
                    let mut m = "Original dotfile not found: ".to_owned();
                    m.append(self.links[self.pos].original.as_str());
                    self.fail(SetupError::DotfileError(m));
                } else {
                    let dir = parent_path(self.links[self.pos].link.as_str());
                    if dir.is_some() {
                        self.phase = Phase::Parent;
                    } else {
                        self.phase = Phase::Inspect;
                    }
                }
            },
            Phase::Parent => {
                let exists = match reply {
                    FsReply::Exists(b) => b,
                    _ => false,
                };
                if exists {
                    self.phase = Phase::Inspect;
                } else {
                    self.phase = Phase::MakeParent;
                }
            },
            Phase::MakeParent => match reply {
                FsReply::Failed(m) => {
                    self.fail(SetupError::IoError(m));
                },
                _ => {
                    self.phase = Phase::Inspect;
                },
            },
            Phase::Inspect => match reply {
                FsReply::Absent => {
                    self.seen = Some(LinkState::Absent);
                    self.phase = Phase::Link;
                },
                FsReply::Found { is_symlink: true } => {
                    self.phase = Phase::Locate;
                },
                FsReply::Failed(m) => {
                    self.fail(SetupError::IoError(m));
                },
                _ => {
                    let mut m = "Link path already exists as a file/directory:".to_owned();
                    m.append(self.links[self.pos].link.as_str());
                    m.append(
                        "\nPlease manually backup and remove this file before running omiros again.",
                    );
                    self.seen = Some(LinkState::Occupied);
                    self.fail(SetupError::DotfileError(m));
                },
            },
            Phase::Locate => match reply {
                FsReply::Resolved(found) => {
                    self.source = Some(found);
                    self.phase = Phase::Follow;
                },
                FsReply::Failed(m) => {
                    self.fail(SetupError::IoError(m));
                },
                _ => {},
            },
            Phase::Follow => match reply {
                FsReply::Resolved(t) => {
                    let same = match &self.source {
                        Some(found) => t == *found,
                        None => false,
                    };
                    if same {
                        self.seen = Some(LinkState::SymlinkCorrect);
                        let next = self.pos + 1;
                        self.enter(next);
                    } else {
                        self.seen = Some(LinkState::SymlinkWrong);
                        self.phase = Phase::Remove;
                    }
                },
                _ => {
                    self.seen = Some(LinkState::SymlinkBroken);
                    self.phase = Phase::Remove;
                },
            },
            Phase::Remove => match reply {
                FsReply::Failed(m) => {
                    self.fail(SetupError::IoError(m));
                },
                _ => {
                    self.phase = Phase::Link;
                },
            },
            Phase::Link => match reply {
                FsReply::Failed(m) => {
                    self.fail(SetupError::IoError(m));
                },
                _ => {
                    let next = self.pos + 1;
                    self.enter(next);
                },
            },
            Phase::Finished => {},
        }
    }
}

/// Every answered request keeps the run well formed and uses up some of its
/// budget: a run over `n` entries ends after at most `9 * n + 9` requests.
pub proof fn lemma_step_spends_budget(run: DotfileRunView, reply: FsReplyView)
    requires
        run.wf(),
        run.awaits(reply),
    ensures
        run.step(reply).wf(),
        run.step(reply).budget() < run.budget(),
        run.step(reply).links == run.links,
        run.step(reply).dir == run.dir,
        run.step(reply).home_known == run.home_known,
{
}

/// What was found at the place of a link, from the answer to `Inspect` and
/// the answer to the question where the link leads.
pub open spec fn observation(inspect: FsReplyView, follow: FsReplyView) -> Observation {
    match inspect {
        FsReplyView::Absent => Observation::Nothing,
        FsReplyView::Found { is_symlink: true } => Observation::Link {
            leads_to: match follow {
                FsReplyView::Resolved(t) => Some(t),
                _ => None,
            },
        },
        _ => Observation::NotALink,
    }
}

/// The run after it has looked at the place of the current link: after the
/// answer to `Inspect` and, as far as the run asks for them, the answers to
/// the questions where the file is found and where the link leads.
pub open spec fn after_looking(
    run: DotfileRunView,
    inspect: FsReplyView,
    locate: FsReplyView,
    follow: FsReplyView,
) -> DotfileRunView {
    let first = run.step(inspect);
    if first.phase != Phase::Locate {
        first
    } else {
        let second = first.step(locate);
        if second.phase != Phase::Follow {
            second
        } else {
            second.step(follow)
        }
    }
}

/// The run does to a link what the state of the link calls for. However the
/// questions about the place of the link are answered, the run records the
/// state that `classify` gives, and then: creates the link where nothing is
/// there; goes on to the next entry, with no change, where the link leads to
/// the file; removes the link first where it leads elsewhere or nowhere; and
/// ends with an error, with no change, where a file or directory is in the
/// way.
pub proof fn lemma_run_follows_classification(
    run: DotfileRunView,
    inspect: FsReplyView,
    source: Seq<char>,
    follow: FsReplyView,
)
    requires
        run.wf(),
        run.phase == Phase::Inspect,
        inspect is Absent || inspect is Found,
        follow is Resolved || follow is Failed,
    ensures
        ({
            let state = classify(observation(inspect, follow), source);
            let after = after_looking(run, inspect, FsReplyView::Resolved(source), follow);
            &&& after.seen == Some(state)
            &&& after.links == run.links
            &&& match state.action() {
                LinkAction::Create => after == run.note(state).goto(Phase::Link),
                LinkAction::Keep => after == run.note(state).enter(run.pos + 1),
                LinkAction::Replace => after.phase == Phase::Remove && after.pos == run.pos
                    && after.error is None,
                LinkAction::Refuse => after == run.note(state).fail(
                    SetupErrorView::DotfileError(occupied_message(run.current().link)),
                ),
            }
        }),
{
}

/// An entry is left behind only when its link is right: the run goes on to
/// the next entry either because the link that is there leads to where the
/// file is found, or because the link has just been created.
pub proof fn lemma_entry_ends_linked(run: DotfileRunView, reply: FsReplyView)
    requires
        run.wf(),
        run.awaits(reply),
        run.step(reply).pos == run.pos + 1,
    ensures
        run.step(reply).error is None,
        (run.phase == Phase::Follow && reply == FsReplyView::Resolved(run.source->0)) || (run.phase
            == Phase::Link && reply == FsReplyView::Done),
{
}

/// A link is removed only after it was found to be a symbolic link that
/// does not lead to the file: the run asks for a removal only when the state
/// recorded last is wrong or broken, and for nothing else after a file or
/// directory was found in the way.
pub proof fn lemma_removal_needs_bad_link(run: DotfileRunView, reply: FsReplyView)
    requires
        run.wf(),
        run.awaits(reply),
    ensures
        run.step(reply).phase == Phase::Remove ==> (run.step(reply).seen == Some(
            LinkState::SymlinkWrong,
        ) || run.step(reply).seen == Some(LinkState::SymlinkBroken)),
        run.phase == Phase::Inspect && reply == (FsReplyView::Found { is_symlink: false })
            ==> run.step(reply).request() is None,
{
}

/// How the work on one link ended.
pub struct Settled {
    /// The run after the work on the link.
    pub run: DotfileRunView,
    /// What the place of the link looks like then.
    pub place: Observation,
    /// How many removals were asked for.
    pub removals: nat,
    /// How many links were asked to be created.
    pub creations: nat,
}

impl DotfileRunView {
    /// Whether the run is at work on the place of the current link.
    pub open spec fn at_link(self) -> bool {
        self.phase == Phase::Inspect || self.phase == Phase::Locate || self.phase == Phase::Follow
            || self.phase == Phase::Remove || self.phase == Phase::Link
    }

    /// How the pending request about the current link is answered where the
    /// place of the link looks like `place` and the file is found at
    /// `source`. Changes succeed; a link that leads nowhere cannot be
    /// followed.
    pub open spec fn answer_at(self, place: Observation, source: Seq<char>) -> FsReplyView {
        match self.phase {
            Phase::Inspect => match place {
                Observation::Nothing => FsReplyView::Absent,
                Observation::NotALink => FsReplyView::Found { is_symlink: false },
                Observation::Link { .. } => FsReplyView::Found { is_symlink: true },
            },
            Phase::Locate => FsReplyView::Resolved(source),
            Phase::Follow => match place {
                Observation::Link { leads_to: Some(t) } => FsReplyView::Resolved(t),
                _ => FsReplyView::Failed(Seq::empty()),
            },
            _ => FsReplyView::Done,
        }
    }

    /// What the place of the current link looks like once the pending
    /// request is carried out: nothing is there after a removal, and after
    /// the creation a link that leads to where the file is found.
    pub open spec fn place_after(self, place: Observation, source: Seq<char>) -> Observation {
        match self.phase {
            Phase::Remove => Observation::Nothing,
            Phase::Link => Observation::Link { leads_to: Some(source) },
            _ => place,
        }
    }

    /// The work of the run on the current link, at a place that looks like
    /// `place`, until the run leaves the link behind or ends.
    pub open spec fn settle(self, place: Observation, source: Seq<char>) -> Settled
        decreases self.budget(),
    {
        if self.wf() && self.at_link() {
            proof {
                lemma_step_spends_budget(self, self.answer_at(place, source));
            }
            let rest = self.step(self.answer_at(place, source)).settle(
                self.place_after(place, source),
                source,
            );
            Settled {
                removals: rest.removals + if self.phase == Phase::Remove {
                    1nat
                } else {
                    0nat
                },
                creations: rest.creations + if self.phase == Phase::Link {
                    1nat
                } else {
                    0nat
                },
                ..rest
            }
        } else {
            Settled { run: self, place, removals: 0, creations: 0 }
        }
    }
}

/// Every link converges. Whatever lies at the place of a link, the work of
/// the run on it ends in one of two ways. Where a file or directory is in
/// the way, the run fails and the place is as it was, with nothing removed
/// and nothing created. In every other case the run goes on to the next
/// entry and the place holds a link that leads to the file: with no change
/// where the link was right, by one creation where nothing was there, and by
/// one removal and one creation where the link was wrong or broken.
pub proof fn lemma_link_converges(run: DotfileRunView, place: Observation, source: Seq<char>)
    requires
        run.wf(),
        run.phase == Phase::Inspect,
    ensures
        ({
            let state = classify(place, source);
            let end = run.settle(place, source);
            match state.action() {
                LinkAction::Refuse => {
                    &&& end.run == run.note(state).fail(
                        SetupErrorView::DotfileError(occupied_message(run.current().link)),
                    )
                    &&& end.place == place
                    &&& end.removals == 0
                    &&& end.creations == 0
                },
                action => {
                    &&& end.run == run.note(state).enter(run.pos + 1)
                    &&& classify(end.place, source) == LinkState::SymlinkCorrect
                    &&& end.removals == if action == LinkAction::Replace {
                        1nat
                    } else {
                        0nat
                    }
                    &&& end.creations == if action == LinkAction::Keep {
                        0nat
                    } else {
                        1nat
                    }
                },
            }
        }),
{
    let looked = run.step(run.answer_at(place, source));
    lemma_step_spends_budget(run, run.answer_at(place, source));
    assert(run.settle(place, source).run == looked.settle(place, source).run);
    if looked.phase == Phase::Link {
        lemma_link_created(looked, place, source);
    } else if looked.phase == Phase::Locate {
        let located = looked.step(looked.answer_at(place, source));
        lemma_step_spends_budget(looked, looked.answer_at(place, source));
        assert(looked.settle(place, source).run == located.settle(place, source).run);
        let followed = located.step(located.answer_at(place, source));
        lemma_step_spends_budget(located, located.answer_at(place, source));
        assert(located.settle(place, source).run == followed.settle(place, source).run);
        if followed.phase == Phase::Remove {
            lemma_link_replaced(followed, place, source);
        } else {
            assert(!followed.at_link());
        }
    } else {
        assert(!looked.at_link());
    }
}

/// From the creation on: one creation, and a right link.
proof fn lemma_link_created(run: DotfileRunView, place: Observation, source: Seq<char>)
    requires
        run.wf(),
        run.phase == Phase::Link,
    ensures
        run.settle(place, source).run == run.enter(run.pos + 1),
        classify(run.settle(place, source).place, source) == LinkState::SymlinkCorrect,
        run.settle(place, source).removals == 0,
        run.settle(place, source).creations == 1,
{
    let next = run.step(run.answer_at(place, source));
    lemma_step_spends_budget(run, run.answer_at(place, source));
    assert(!next.at_link());
    assert(run.settle(place, source).run == next.settle(
        run.place_after(place, source),
        source,
    ).run);
}

/// From the removal on: one removal, one creation, and a right link.
proof fn lemma_link_replaced(run: DotfileRunView, place: Observation, source: Seq<char>)
    requires
        run.wf(),
        run.phase == Phase::Remove,
    ensures
        run.settle(place, source).run == run.goto(Phase::Link).enter(run.pos + 1),
        classify(run.settle(place, source).place, source) == LinkState::SymlinkCorrect,
        run.settle(place, source).removals == 1,
        run.settle(place, source).creations == 1,
{
    let next = run.step(run.answer_at(place, source));
    lemma_step_spends_budget(run, run.answer_at(place, source));
    lemma_link_created(next, run.place_after(place, source), source);
    assert(run.settle(place, source).run == next.settle(
        run.place_after(place, source),
        source,
    ).run);
}

/// A world that answers every request the same way each time: the file
/// system as long as nothing changes it.
pub type World = spec_fn(FsRequestView) -> FsReplyView;

impl DotfileRunView {
    /// The requests that the run makes, in order, while `world` answers
    /// them.
    pub open spec fn requests(self, world: World) -> Seq<FsRequestView>
        decreases self.budget(),
    {
        if self.wf() && self.request() is Some && self.awaits(world(self.request()->0)) {
            proof {
                lemma_step_spends_budget(self, world(self.request()->0));
            }
            seq![self.request()->0] + self.step(world(self.request()->0)).requests(world)
        } else {
            Seq::empty()
        }
    }

    /// The state in which the run ends while `world` answers its requests.
    pub open spec fn finish(self, world: World) -> DotfileRunView
        decreases self.budget(),
    {
        if self.wf() && self.request() is Some && self.awaits(world(self.request()->0)) {
            proof {
                lemma_step_spends_budget(self, world(self.request()->0));
            }
            self.step(world(self.request()->0)).finish(world)
        } else {
            self
        }
    }

    /// Whether in `world` everything is as the run wants it: the dotfiles
    /// directory and every file exist, the directory of every link exists,
    /// and at the place of every link lies a symbolic link that leads to
    /// where its file is found.
    pub open spec fn settled(self, world: World) -> bool {
        &&& self.home_known
        &&& world(FsRequestView::Exists(self.dir)) == FsReplyView::Exists(true)
        &&& forall|i: int|
            0 <= i < self.links.len() ==> {
                let plan = #[trigger] self.links[i];
                &&& world(FsRequestView::Exists(plan.original)) == FsReplyView::Exists(true)
                &&& parent(plan.link) matches Some(d) ==> world(FsRequestView::Exists(d))
                    == FsReplyView::Exists(true)
                &&& world(FsRequestView::Inspect(plan.link)) == (FsReplyView::Found {
                    is_symlink: true,
                })
                &&& world(FsRequestView::Resolve(plan.original)) is Resolved
                &&& world(FsRequestView::Resolve(plan.link)) == world(
                    FsRequestView::Resolve(plan.original),
                )
            }
    }
}

/// A run in a world where everything is as declared changes nothing: it
/// asks questions only, and ends well.
pub proof fn lemma_settled_run_changes_nothing(run: DotfileRunView, world: World)
    requires
        run.wf(),
        run.settled(world),
        run.phase != Phase::MakeParent,
        run.phase != Phase::Remove,
        run.phase != Phase::Link,
        run.phase == Phase::Follow ==> world(FsRequestView::Resolve(run.current().original))
            == FsReplyView::Resolved(run.source->0),
        run.error is None,
    ensures
        forall|k: int|
            0 <= k < run.requests(world).len() ==> !(#[trigger] run.requests(world)[k]).mutates(),
        run.finish(world).outcome() == Some(Ok::<(), SetupErrorView>(())),
    decreases run.budget(),
{
    if run.phase != Phase::Finished {
        let asked = run.request()->0;
        let next = run.step(world(asked));
        assert(run.on_entry() ==> run.links[run.pos as int] == run.current());
        assert(run.awaits(world(asked)));
        lemma_step_spends_budget(run, world(asked));
        lemma_settled_run_changes_nothing(next, world);
        assert(run.requests(world) == seq![asked] + next.requests(world));
        assert(run.finish(world) == next.finish(world));
    }
}

/// What the file system holds for one entry of a run: whether its file
/// exists, where its file is found once every link on the way is followed,
/// whether the directory of its link exists, and what lies at the place of
/// its link.
pub struct Site {
    pub original_exists: bool,
    pub source: Seq<char>,
    pub parent_exists: bool,
    pub place: Observation,
}

/// What the file system holds for a run: whether the dotfiles directory
/// exists, and a site for each entry, in the order of the run. What is done
/// at one site leaves the others as they are, which holds of entries that
/// lie apart.
pub struct Sites {
    pub dir_exists: bool,
    pub sites: Seq<Site>,
}

/// How a run against the sites ended.
pub struct Linked {
    /// The run at its end.
    pub run: DotfileRunView,
    /// The sites at the end of the run.
    pub sites: Sites,
    /// How many changes of the file system the run asked for.
    pub changes: nat,
}

/// Whether the path `p` lies at `dir` or under it.
pub open spec fn at_or_under(p: Seq<char>, dir: Seq<char>) -> bool {
    p == dir || (p.len() > dir.len() && p.take(dir.len() as int) == dir && (p[dir.len() as int]
        == '/' || (dir.len() > 0 && dir.last() == '/')))
}

/// Whether the entries lie apart: no link lies at the place of another link
/// or under it, and no link lies at the place of the file of an entry or
/// above it.
pub open spec fn apart(links: Seq<LinkPlanView>) -> bool {
    forall|i: int, j: int|
        #![trigger links[i], links[j]]
        0 <= i < links.len() && 0 <= j < links.len() ==> {
            &&& i != j ==> !at_or_under(links[i].link, links[j].link)
            &&& !at_or_under(links[i].original, links[j].link)
        }
}

impl Site {
    /// Whether everything is as the entry wants it: the file exists, the
    /// directory of the link exists, and the link leads to where the file is
    /// found.
    pub open spec fn settled(self, plan: LinkPlanView) -> bool {
        &&& self.original_exists
        &&& parent(plan.link) is Some ==> self.parent_exists
        &&& classify(self.place, self.source) == LinkState::SymlinkCorrect
    }
}

impl DotfileRunView {
    /// How the file system answers the pending request where it holds
    /// `world`. Changes succeed.
    pub open spec fn answer_from(self, world: Sites) -> FsReplyView {
        let site = world.sites[self.pos as int];
        match self.phase {
            Phase::Start => FsReplyView::Exists(world.dir_exists),
            Phase::Source => FsReplyView::Exists(site.original_exists),
            Phase::Parent => FsReplyView::Exists(site.parent_exists),
            Phase::MakeParent => FsReplyView::Done,
            _ => self.answer_at(site.place, site.source),
        }
    }

    /// What the file system holds once the pending request is carried out.
    pub open spec fn sites_after(self, world: Sites) -> Sites {
        let site = world.sites[self.pos as int];
        if self.phase == Phase::MakeParent {
            Sites {
                sites: world.sites.update(self.pos as int, Site { parent_exists: true, ..site }),
                ..world
            }
        } else if self.at_link() {
            Sites {
                sites: world.sites.update(
                    self.pos as int,
                    Site { place: self.place_after(site.place, site.source), ..site },
                ),
                ..world
            }
        } else {
            world
        }
    }

    /// The run carried through against the sites.
    pub open spec fn carry(self, world: Sites) -> Linked
        decreases self.budget(),
    {
        if self.wf() && self.phase != Phase::Finished {
            proof {
                lemma_step_spends_budget(self, self.answer_from(world));
            }
            let rest = self.step(self.answer_from(world)).carry(self.sites_after(world));
            Linked {
                changes: rest.changes + if (self.request()->0).mutates() {
                    1nat
                } else {
                    0nat
                },
                ..rest
            }
        } else {
            Linked { run: self, sites: world, changes: 0 }
        }
    }

    /// What is known of the sites while the run is at work: the entries
    /// left behind are settled, and of the current entry as much is in order
    /// as the run has seen to.
    pub open spec fn seen_to(self, world: Sites) -> bool {
        let site = world.sites[self.pos as int];
        &&& world.sites.len() == self.links.len()
        &&& self.phase != Phase::Start ==> world.dir_exists && self.home_known
        &&& forall|i: int|
            0 <= i < self.pos && i < self.links.len() ==> (#[trigger] world.sites[i]).settled(
                self.links[i],
            )
        &&& self.on_entry() && self.phase != Phase::Source ==> site.original_exists
        &&& self.at_link() && parent(self.current().link) is Some ==> site.parent_exists
        &&& self.phase == Phase::Follow ==> self.source == Some(site.source)
        &&& self.phase == Phase::Link ==> site.place == Observation::Nothing
    }
}

/// A run that ends well leaves every entry settled.
pub proof fn lemma_run_settles_sites(run: DotfileRunView, world: Sites)
    requires
        run.wf(),
        run.seen_to(world),
    ensures
        run.carry(world).sites.sites.len() == world.sites.len(),
        run.carry(world).sites.dir_exists == world.dir_exists,
        run.carry(world).run.outcome() == Some(Ok::<(), SetupErrorView>(())) ==> {
            &&& world.dir_exists
            &&& run.home_known
            &&& forall|i: int|
                0 <= i < world.sites.len() ==> (#[trigger] run.carry(world).sites.sites[i]).settled(
                    run.links[i],
                )
        },
    decreases run.budget(),
{
    if run.phase != Phase::Finished {
        let reply = run.answer_from(world);
        let next = run.step(reply);
        let after = run.sites_after(world);
        lemma_step_spends_budget(run, reply);
        if next.error is None {
            assert(next.seen_to(after)) by {
                assert(run.on_entry() ==> run.links[run.pos as int] == run.current());
                assert forall|i: int| 0 <= i < next.pos && i < next.links.len() implies (
                #[trigger] after.sites[i]).settled(next.links[i]) by {
                    if i < run.pos {
                        assert(world.sites[i].settled(run.links[i]));
                    }
                }
            }
            lemma_run_settles_sites(next, after);
        } else {
            assert(next.carry(after).run == next);
        }
        assert(run.carry(world).run == next.carry(after).run);
        assert(run.carry(world).sites == next.carry(after).sites);
    }
}

/// A run over sites that are all settled asks for no change, leaves the
/// sites as they are, and ends well.
pub proof fn lemma_settled_sites_stay(run: DotfileRunView, world: Sites)
    requires
        run.wf(),
        run.error is None,
        run.home_known,
        world.dir_exists,
        world.sites.len() == run.links.len(),
        forall|i: int|
            0 <= i < world.sites.len() ==> (#[trigger] world.sites[i]).settled(run.links[i]),
        run.phase != Phase::MakeParent,
        run.phase != Phase::Remove,
        run.phase != Phase::Link,
        run.phase == Phase::Follow ==> run.source == Some(world.sites[run.pos as int].source),
    ensures
        run.carry(world).changes == 0,
        run.carry(world).sites == world,
        run.carry(world).run.outcome() == Some(Ok::<(), SetupErrorView>(())),
    decreases run.budget(),
{
    if run.phase != Phase::Finished {
        let reply = run.answer_from(world);
        let next = run.step(reply);
        if run.on_entry() {
            assert(world.sites[run.pos as int].settled(run.links[run.pos as int]));
        }
        lemma_step_spends_budget(run, reply);
        assert(run.sites_after(world).sites =~= world.sites);
        lemma_settled_sites_stay(next, world);
        assert(run.carry(world).run == next.carry(world).run);
    }
}

/// A second run changes nothing. Where the entries lie apart and a run over
/// the dotfiles ended well, a second run over the same dotfiles, against
/// what the first one left, asks for no change of the file system, and ends
/// well.
pub proof fn lemma_second_run_changes_nothing(
    entries: Seq<DotfileEntryView>,
    dir: Seq<char>,
    home: Option<Seq<char>>,
    world: Sites,
)
    requires
        apart(DotfileRunView::initial(entries, dir, home).links),
        world.sites.len() == DotfileRunView::initial(entries, dir, home).links.len(),
        DotfileRunView::initial(entries, dir, home).carry(world).run.outcome() == Some(
            Ok::<(), SetupErrorView>(()),
        ),
    ensures
        ({
            let first = DotfileRunView::initial(entries, dir, home).carry(world);
            let second = DotfileRunView::initial(entries, dir, home).carry(first.sites);
            &&& second.changes == 0
            &&& second.sites == first.sites
            &&& second.run.outcome() == Some(Ok::<(), SetupErrorView>(()))
        }),
{
    let start = DotfileRunView::initial(entries, dir, home);
    lemma_run_settles_sites(start, world);
    lemma_settled_sites_stay(start, start.carry(world).sites);
}

} // verus!
