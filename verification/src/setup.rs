//! Putting the runtime into a game directory: the archive is downloaded into
//! a scratch directory inside the game directory and unpacked there, and
//! what it held is moved up into the game directory.

use vstd::prelude::*;
use crate::config::{BEPINEX_URL, USER_AGENT};
use crate::installer::{copy_installer_error, Installer, InstallerError, InstallerErrorView};
use crate::paths::{join, joined, Platform};
use crate::text::{chars_of, copy_of, string_of};

verus! {

/// What the setup needs next.
#[derive(Debug)]
pub enum SetupRequest {
    /// Whether `path` exists.
    Exists { path: String },
    /// Create the directory `path`.
    CreateDir { path: String },
    /// Ask for what is at `url` and keep the whole body.
    Download { url: String, user_agent: String },
    /// Write the body to the file `path`.
    WriteFile { path: String },
    /// Open the file `path` for reading.
    OpenArchive { path: String },
    /// Read the opened file as an archive and unpack all of it into the
    /// directory `into`.
    Extract { into: String },
    /// Wait.
    Pause { seconds: u64 },
    /// Delete the file `path`.
    RemoveFile { path: String },
    /// The names of the entries of the directory `path`.
    ListDir { path: String },
    /// Rename `from` to `to`.
    Move { from: String, to: String },
    /// Delete the directory `path` and all that is in it.
    RemoveDirAll { path: String },
    /// Nothing: the setup has ended, well or with this error.
    Done(Result<(), InstallerError>),
}

/// A setup request as plain text.
pub enum SetupRequestView {
    Exists { path: Seq<char> },
    CreateDir { path: Seq<char> },
    Download { url: Seq<char>, user_agent: Seq<char> },
    WriteFile { path: Seq<char> },
    OpenArchive { path: Seq<char> },
    Extract { into: Seq<char> },
    Pause { seconds: u64 },
    RemoveFile { path: Seq<char> },
    ListDir { path: Seq<char> },
    Move { from: Seq<char>, to: Seq<char> },
    RemoveDirAll { path: Seq<char> },
    Done(Result<(), InstallerErrorView>),
}

impl View for SetupRequest {
    type V = SetupRequestView;

    open spec fn view(&self) -> SetupRequestView {
        match self {
            SetupRequest::Exists { path } => SetupRequestView::Exists { path: path@ },
            SetupRequest::CreateDir { path } => SetupRequestView::CreateDir { path: path@ },
            SetupRequest::Download { url, user_agent } => SetupRequestView::Download {
                url: url@,
                user_agent: user_agent@,
            },
            SetupRequest::WriteFile { path } => SetupRequestView::WriteFile { path: path@ },
            SetupRequest::OpenArchive { path } => SetupRequestView::OpenArchive { path: path@ },
            SetupRequest::Extract { into } => SetupRequestView::Extract { into: into@ },
            SetupRequest::Pause { seconds } => SetupRequestView::Pause { seconds: *seconds },
            SetupRequest::RemoveFile { path } => SetupRequestView::RemoveFile { path: path@ },
            SetupRequest::ListDir { path } => SetupRequestView::ListDir { path: path@ },
            SetupRequest::Move { from, to } => SetupRequestView::Move { from: from@, to: to@ },
            SetupRequest::RemoveDirAll { path } => SetupRequestView::RemoveDirAll { path: path@ },
            SetupRequest::Done(Ok(())) => SetupRequestView::Done(Ok(())),
            SetupRequest::Done(Err(e)) => SetupRequestView::Done(Err(e@)),
        }
    }
}

/// The outcome of a setup request.
#[derive(Debug)]
pub enum SetupAnswer {
    /// The work was done.
    Succeeded,
    /// Whether the path exists.
    Found(bool),
    /// The names of the entries of the directory.
    Names(Vec<String>),
    /// The work failed; the text says why.
    Failed(String),
}

/// A setup answer as plain text.
pub enum SetupAnswerView {
    Succeeded,
    Found(bool),
    Names(Seq<Seq<char>>),
    Failed(Seq<char>),
}

impl View for SetupAnswer {
    type V = SetupAnswerView;

    open spec fn view(&self) -> SetupAnswerView {
        match self {
            SetupAnswer::Succeeded => SetupAnswerView::Succeeded,
            SetupAnswer::Found(yes) => SetupAnswerView::Found(*yes),
            SetupAnswer::Names(names) => SetupAnswerView::Names(names.deep_view()),
            SetupAnswer::Failed(m) => SetupAnswerView::Failed(m@),
        }
    }
}

/// How far a setup has come.
#[derive(Debug)]
enum Progress {
    Probing,
    Making,
    Fetching,
    Saving,
    Opening,
    Unpacking,
    Waiting,
    Cleaning,
    Listing,
    Moving { names: Vec<String>, at: usize },
    Removing,
    Ended { outcome: Result<(), InstallerError> },
}

/// How far a setup has come, as plain text.
pub enum SetupStage {
    /// Whether the scratch directory exists is to be found out.
    Probing,
    /// The scratch directory is to be made.
    Making,
    /// The archive is to be downloaded.
    Fetching,
    /// The archive is to be written into the scratch directory.
    Saving,
    /// The archive is to be opened.
    Opening,
    /// The archive is to be unpacked into the scratch directory.
    Unpacking,
    /// The file system is given a moment.
    Waiting,
    /// The archive is to be deleted.
    Cleaning,
    /// The scratch directory is to be listed.
    Listing,
    /// The entries `left` of the scratch directory are to be moved into the
    /// game directory, the first of them next.
    Moving { left: Seq<Seq<char>> },
    /// The scratch directory is to be deleted.
    Removing,
    /// The setup has ended.
    Ended { outcome: Result<(), InstallerErrorView> },
}

/// The stage at which `left` is still to be moved.
pub open spec fn moving(left: Seq<Seq<char>>) -> SetupStage {
    if left.len() == 0 {
        SetupStage::Removing
    } else {
        SetupStage::Moving { left }
    }
}

/// The state of a setup as plain text.
pub struct SetupView {
    pub platform: Platform,
    /// The game directory.
    pub root: Seq<char>,
    pub stage: SetupStage,
}

impl SetupView {
    /// The setup of the game directory `root` before anything was done.
    pub open spec fn start(platform: Platform, root: Seq<char>) -> SetupView {
        SetupView { platform, root, stage: SetupStage::Probing }
    }

    /// While entries are being moved, there is one to move.
    pub open spec fn wf(self) -> bool {
        self.stage matches SetupStage::Moving { left } ==> left.len() > 0
    }

    /// The scratch directory.
    pub open spec fn scratch(self) -> Seq<char> {
        joined(self.platform, self.root, "temp"@)
    }

    /// The file that the archive is written to.
    pub open spec fn archive(self) -> Seq<char> {
        joined(self.platform, self.scratch(), "bepinex.zip"@)
    }

    /// The setup at `stage`.
    pub open spec fn at(self, stage: SetupStage) -> SetupView {
        SetupView { stage, ..self }
    }

    /// The setup, ended with `error`.
    pub open spec fn failed(self, error: InstallerErrorView) -> SetupView {
        self.at(SetupStage::Ended { outcome: Err(error) })
    }

    /// What the setup needs next.
    pub open spec fn request(self) -> SetupRequestView {
        match self.stage {
            SetupStage::Probing => SetupRequestView::Exists { path: self.scratch() },
            SetupStage::Making => SetupRequestView::CreateDir { path: self.scratch() },
            SetupStage::Fetching => SetupRequestView::Download {
                url: BEPINEX_URL@,
                user_agent: USER_AGENT@,
            },
            SetupStage::Saving => SetupRequestView::WriteFile { path: self.archive() },
            SetupStage::Opening => SetupRequestView::OpenArchive { path: self.archive() },
            SetupStage::Unpacking => SetupRequestView::Extract { into: self.scratch() },
            SetupStage::Waiting => SetupRequestView::Pause { seconds: 1 },
            SetupStage::Cleaning => SetupRequestView::RemoveFile { path: self.archive() },
            SetupStage::Listing => SetupRequestView::ListDir { path: self.scratch() },
            SetupStage::Moving { left } => SetupRequestView::Move {
                from: joined(self.platform, self.scratch(), left[0]),
                to: joined(self.platform, self.root, left[0]),
            },
            SetupStage::Removing => SetupRequestView::RemoveDirAll { path: self.scratch() },
            SetupStage::Ended { outcome } => SetupRequestView::Done(outcome),
        }
    }

    /// The kind of error that a failure at the present stage is.
    pub open spec fn failure(self, reason: Seq<char>) -> InstallerErrorView {
        match self.stage {
            SetupStage::Fetching => InstallerErrorView::ReqwestError(reason),
            SetupStage::Unpacking => InstallerErrorView::ZipError(reason),
            _ => InstallerErrorView::IoError(reason),
        }
    }

    /// The stage that follows the present one when its work was done. The
    /// two stages whose work yields an answer of its own, and the end, are
    /// followed by themselves.
    pub open spec fn following(self) -> SetupStage {
        match self.stage {
            SetupStage::Probing => SetupStage::Probing,
            SetupStage::Making => SetupStage::Fetching,
            SetupStage::Fetching => SetupStage::Saving,
            SetupStage::Saving => SetupStage::Opening,
            SetupStage::Opening => SetupStage::Unpacking,
            SetupStage::Unpacking => SetupStage::Waiting,
            SetupStage::Waiting => SetupStage::Cleaning,
            SetupStage::Cleaning => SetupStage::Listing,
            SetupStage::Listing => SetupStage::Listing,
            SetupStage::Moving { left } => moving(left.skip(1)),
            SetupStage::Removing => SetupStage::Ended { outcome: Ok(()) },
            SetupStage::Ended { outcome } => self.stage,
        }
    }

    /// The setup after it was given `answer`. Work that was done leads to
    /// the next stage; a scratch directory that exists is not made again;
    /// the entries listed are moved one by one, in the order of the listing;
    /// a failure ends the setup with the error of the stage that failed. An
    /// answer that does not fit the stage changes nothing.
    pub open spec fn step(self, answer: SetupAnswerView) -> SetupView {
        match (self.stage, answer) {
            (SetupStage::Ended { outcome }, _) => self,
            (SetupStage::Probing, SetupAnswerView::Found(yes)) => if yes {
                self.at(SetupStage::Fetching)
            } else {
                self.at(SetupStage::Making)
            },
            (SetupStage::Probing, _) => self,
            (SetupStage::Listing, SetupAnswerView::Names(names)) => self.at(moving(names)),
            (SetupStage::Listing, SetupAnswerView::Succeeded) => self,
            (SetupStage::Waiting, SetupAnswerView::Failed(reason)) => self,
            (_, SetupAnswerView::Succeeded) => self.at(self.following()),
            (_, SetupAnswerView::Failed(reason)) => self.failed(self.failure(reason)),
            _ => self,
        }
    }
}

/// A setup in progress.
#[derive(Debug)]
pub struct Setup {
    platform: Platform,
    root: String,
    stage: Progress,
}

impl Progress {
    spec fn as_stage(self) -> SetupStage {
        match self {
            Progress::Probing => SetupStage::Probing,
            Progress::Making => SetupStage::Making,
            Progress::Fetching => SetupStage::Fetching,
            Progress::Saving => SetupStage::Saving,
            Progress::Opening => SetupStage::Opening,
            Progress::Unpacking => SetupStage::Unpacking,
            Progress::Waiting => SetupStage::Waiting,
            Progress::Cleaning => SetupStage::Cleaning,
            Progress::Listing => SetupStage::Listing,
            Progress::Moving { names, at } => SetupStage::Moving {
                left: names.deep_view().skip(at as int),
            },
            Progress::Removing => SetupStage::Removing,
            Progress::Ended { outcome: Ok(()) } => SetupStage::Ended { outcome: Ok(()) },
            Progress::Ended { outcome: Err(e) } => SetupStage::Ended { outcome: Err(e@) },
        }
    }
}

impl View for Setup {
    type V = SetupView;

    closed spec fn view(&self) -> SetupView {
        SetupView { platform: self.platform, root: self.root@, stage: self.stage.as_stage() }
    }
}

impl Installer {
    /// The setup of the runtime in this installer's game directory, before
    /// anything was done.
    pub fn setup(&self, platform: Platform) -> (out: Setup)
        ensures
            out@ == SetupView::start(platform, self@),
    {
        Setup { platform, root: self.path(), stage: Progress::Probing }
    }
}

impl Setup {
    #[verifier::type_invariant]
    spec fn inv(self) -> bool {
        self.stage matches Progress::Moving { names, at } ==> at < names.len()
    }

    /// The scratch directory.
    fn scratch(&self) -> (out: Vec<char>)
        ensures
            out@ == self@.scratch(),
    {
        join(self.platform, &chars_of(self.root.as_str()), &chars_of("temp"))
    }

    /// The file that the archive is written to.
    fn archive(&self) -> (out: String)
        ensures
            out@ == self@.archive(),
    {
        string_of(&join(self.platform, &self.scratch(), &chars_of("bepinex.zip")))
    }

    /// What the setup needs next.
    pub fn next(&self) -> (out: SetupRequest)
        ensures
            out@ == self@.request(),
            self@.wf(),
    {
        proof {
            use_type_invariant(self);
        }
        match &self.stage {
            Progress::Probing => SetupRequest::Exists { path: string_of(&self.scratch()) },
            Progress::Making => SetupRequest::CreateDir { path: string_of(&self.scratch()) },
            Progress::Fetching => SetupRequest::Download {
                url: copy_of(BEPINEX_URL),
                user_agent: copy_of(USER_AGENT),
            },
            Progress::Saving => SetupRequest::WriteFile { path: self.archive() },
            Progress::Opening => SetupRequest::OpenArchive { path: self.archive() },
            Progress::Unpacking => SetupRequest::Extract { into: string_of(&self.scratch()) },
            Progress::Waiting => SetupRequest::Pause { seconds: 1 },
            Progress::Cleaning => SetupRequest::RemoveFile { path: self.archive() },
            Progress::Listing => SetupRequest::ListDir { path: string_of(&self.scratch()) },
            Progress::Moving { names, at } => {
                let name = chars_of(names[*at].as_str());
                assert(names.deep_view().skip(*at as int)[0] == name@);
                SetupRequest::Move {
                    from: string_of(&join(self.platform, &self.scratch(), &name)),
                    to: string_of(&join(self.platform, &chars_of(self.root.as_str()), &name)),
                }
            },
            Progress::Removing => SetupRequest::RemoveDirAll { path: string_of(&self.scratch()) },
            Progress::Ended { outcome } => match outcome {
                Ok(()) => SetupRequest::Done(Ok(())),
                Err(e) => SetupRequest::Done(Err(copy_installer_error(e))),
            },
        }
    }

    /// The stage at which the names from `at` on are still to be moved.
    fn moving_from(names: Vec<String>, at: usize) -> (out: Progress)
        requires
            at <= names.len(),
        ensures
            out.as_stage() == moving(names.deep_view().skip(at as int)),
            out matches Progress::Moving { names, at } ==> at < names.len(),
    {
        if at < names.len() {
            Progress::Moving { names, at }
        } else {
            Progress::Removing
        }
    }

    /// The setup after it was given `answer`.
    pub fn step(self, answer: SetupAnswer) -> (out: Setup)
        ensures
            out@ == self@.step(answer@),
            out@.wf(),
    {
        proof {
            use_type_invariant(&self);
        }
        let Setup { platform, root, stage } = self;
        let ghost before = SetupView { platform, root: root@, stage: stage.as_stage() };
        let next = match (stage, answer) {
            (Progress::Ended { outcome }, _) => Progress::Ended { outcome },
            (Progress::Probing, SetupAnswer::Found(yes)) => if yes {
                Progress::Fetching
            } else {
                Progress::Making
            },
            (Progress::Probing, _) => Progress::Probing,
            (Progress::Listing, SetupAnswer::Names(names)) => {
                assert(names.deep_view().skip(0) =~= names.deep_view());
                Self::moving_from(names, 0)
            },
            (Progress::Listing, SetupAnswer::Succeeded) => Progress::Listing,
            (Progress::Waiting, SetupAnswer::Failed(reason)) => Progress::Waiting,
            (Progress::Making, SetupAnswer::Succeeded) => Progress::Fetching,
            (Progress::Fetching, SetupAnswer::Succeeded) => Progress::Saving,
            (Progress::Saving, SetupAnswer::Succeeded) => Progress::Opening,
            (Progress::Opening, SetupAnswer::Succeeded) => Progress::Unpacking,
            (Progress::Unpacking, SetupAnswer::Succeeded) => Progress::Waiting,
            (Progress::Waiting, SetupAnswer::Succeeded) => Progress::Cleaning,
            (Progress::Cleaning, SetupAnswer::Succeeded) => Progress::Listing,
            (Progress::Moving { names, at }, SetupAnswer::Succeeded) => {
                assert(names.deep_view().skip(at as int).skip(1) =~= names.deep_view().skip(
                    at + 1,
                ));
                Self::moving_from(names, at + 1)
            },
            (Progress::Removing, SetupAnswer::Succeeded) => Progress::Ended { outcome: Ok(()) },
            (Progress::Fetching, SetupAnswer::Failed(reason)) => Progress::Ended {
                outcome: Err(InstallerError::ReqwestError(reason)),
            },
            (Progress::Unpacking, SetupAnswer::Failed(reason)) => Progress::Ended {
                outcome: Err(InstallerError::ZipError(reason)),
            },
            (_, SetupAnswer::Failed(reason)) => Progress::Ended {
                outcome: Err(InstallerError::IoError(reason)),
            },
            (stage, _) => stage,
        };
        Setup { platform, root, stage: next }
    }
}

/// A setup that finds its scratch directory in place does not make it again,
/// and one that does not find it makes it first.
pub proof fn law_scratch_is_made_only_when_absent(s: SetupView, found: bool)
    requires
        s.stage is Probing,
    ensures
        s.step(SetupAnswerView::Found(found)).request() == if found {
            SetupRequestView::Download { url: BEPINEX_URL@, user_agent: USER_AGENT@ }
        } else {
            SetupRequestView::CreateDir { path: s.scratch() }
        },
{
}

/// A failure ends the setup at once with an error that carries the reason
/// given: an error of the transport when the download failed, of the archive
/// reader when the unpacking failed, of the file system otherwise.
pub proof fn law_failure_ends_setup(s: SetupView, reason: Seq<char>)
    requires
        !(s.stage is Ended),
        !(s.stage is Probing),
        !(s.stage is Waiting),
    ensures
        s.step(SetupAnswerView::Failed(reason)).request() == SetupRequestView::Done(
            Err(s.failure(reason)),
        ),
        s.failure(reason) == if s.stage is Fetching {
            InstallerErrorView::ReqwestError(reason)
        } else if s.stage is Unpacking {
            InstallerErrorView::ZipError(reason)
        } else {
            InstallerErrorView::IoError(reason)
        },
{
}

/// The entries of the scratch directory are moved one by one in the order
/// of the listing: with `left` to move, the first of them is moved next, and
/// when it has been moved the others are left, or the scratch directory is
/// deleted when there is none.
pub proof fn law_entries_move_in_order(s: SetupView, left: Seq<Seq<char>>)
    requires
        s.stage == (SetupStage::Moving { left }),
        left.len() > 0,
    ensures
        s.request() == (SetupRequestView::Move {
            from: joined(s.platform, s.scratch(), left[0]),
            to: joined(s.platform, s.root, left[0]),
        }),
        s.step(SetupAnswerView::Succeeded).stage == moving(left.skip(1)),
        s.step(SetupAnswerView::Succeeded).wf(),
        left.len() == 1 ==> s.step(SetupAnswerView::Succeeded).request()
            == (SetupRequestView::RemoveDirAll { path: s.scratch() }),
{
}

/// The file system and the network as a setup meets them when nothing
/// fails.
pub struct Calm {
    /// Whether the scratch directory exists beforehand.
    pub found: bool,
    /// The names of the entries of the scratch directory once the archive
    /// is unpacked.
    pub names: Seq<Seq<char>>,
}

impl Calm {
    /// The answer that this world gives to what `s` needs next.
    pub open spec fn answer(self, s: SetupView) -> SetupAnswerView {
        match s.stage {
            SetupStage::Probing => SetupAnswerView::Found(self.found),
            SetupStage::Listing => SetupAnswerView::Names(self.names),
            _ => SetupAnswerView::Succeeded,
        }
    }
}

/// How many stages lie between `stage` and the end, the entries to move
/// counted as one.
pub open spec fn rank(stage: SetupStage) -> int {
    match stage {
        SetupStage::Probing => 11,
        SetupStage::Making => 10,
        SetupStage::Fetching => 9,
        SetupStage::Saving => 8,
        SetupStage::Opening => 7,
        SetupStage::Unpacking => 6,
        SetupStage::Waiting => 5,
        SetupStage::Cleaning => 4,
        SetupStage::Listing => 3,
        SetupStage::Moving { left } => 2,
        SetupStage::Removing => 1,
        SetupStage::Ended { outcome } => 0,
    }
}

/// The entries that `stage` has yet to move.
pub open spec fn left_of(stage: SetupStage) -> Seq<Seq<char>> {
    match stage {
        SetupStage::Moving { left } => left,
        _ => Seq::empty(),
    }
}

/// What the setup `s` asks for, from now to its end, every request answered
/// by `world`, and last the outcome it ends with.
pub open spec fn trace(world: Calm, s: SetupView) -> Seq<SetupRequestView>
    decreases rank(s.stage), left_of(s.stage).len(),
    when s.wf()
{
    if s.stage is Ended {
        seq![s.request()]
    } else {
        seq![s.request()] + trace(world, s.step(world.answer(s)))
    }
}

/// The moves that bring the entries `names` of the scratch directory of `s`
/// into the game directory, in order.
pub open spec fn moves(s: SetupView, names: Seq<Seq<char>>) -> Seq<SetupRequestView> {
    Seq::new(
        names.len(),
        |i: int|
            SetupRequestView::Move {
                from: joined(s.platform, s.scratch(), names[i]),
                to: joined(s.platform, s.root, names[i]),
            },
    )
}

/// The work of a setup in which nothing fails: look for the scratch
/// directory and make it unless it is there; download the archive, write
/// it into the scratch directory, open it and unpack it there; wait a
/// second; delete the archive; list the scratch directory and move every
/// entry into the game directory; delete the scratch directory; end well.
pub open spec fn plan(s: SetupView, world: Calm) -> Seq<SetupRequestView> {
    seq![SetupRequestView::Exists { path: s.scratch() }] + (if world.found {
        Seq::empty()
    } else {
        seq![SetupRequestView::CreateDir { path: s.scratch() }]
    }) + seq![
        SetupRequestView::Download { url: BEPINEX_URL@, user_agent: USER_AGENT@ },
        SetupRequestView::WriteFile { path: s.archive() },
        SetupRequestView::OpenArchive { path: s.archive() },
        SetupRequestView::Extract { into: s.scratch() },
        SetupRequestView::Pause { seconds: 1 },
        SetupRequestView::RemoveFile { path: s.archive() },
        SetupRequestView::ListDir { path: s.scratch() },
    ] + moves(s, world.names) + seq![
        SetupRequestView::RemoveDirAll { path: s.scratch() },
        SetupRequestView::Done(Ok(())),
    ]
}

/// From the moving of entries on, a calm setup moves what is left, in
/// order, deletes the scratch directory and ends well.
proof fn lemma_trace_of_moving(world: Calm, s: SetupView, left: Seq<Seq<char>>)
    requires
        s.stage == moving(left),
    ensures
        trace(world, s) == moves(s, left) + seq![
            SetupRequestView::RemoveDirAll { path: s.scratch() },
            SetupRequestView::Done(Ok(())),
        ],
    decreases left.len(),
{
    let t = s.step(world.answer(s));
    if left.len() == 0 {
        assert(trace(world, t) =~= seq![SetupRequestView::Done(Ok(()))]);
        assert(trace(world, s) =~= moves(s, left) + seq![
            SetupRequestView::RemoveDirAll { path: s.scratch() },
            SetupRequestView::Done(Ok(())),
        ]);
    } else {
        lemma_trace_of_moving(world, t, left.skip(1));
        assert(trace(world, s) =~= moves(s, left) + seq![
            SetupRequestView::RemoveDirAll { path: s.scratch() },
            SetupRequestView::Done(Ok(())),
        ]);
    }
}

/// A setup in which nothing fails asks for exactly the work of the plan, in
/// the order of the plan.
pub proof fn law_calm_setup_follows_the_plan(world: Calm, platform: Platform, root: Seq<char>)
    ensures
        trace(world, SetupView::start(platform, root)) == plan(
            SetupView::start(platform, root),
            world,
        ),
{
    let s0 = SetupView::start(platform, root);
    let fetching = s0.at(SetupStage::Fetching);
    let saving = fetching.step(world.answer(fetching));
    let opening = saving.step(world.answer(saving));
    let unpacking = opening.step(world.answer(opening));
    let waiting = unpacking.step(world.answer(unpacking));
    let cleaning = waiting.step(world.answer(waiting));
    let listing = cleaning.step(world.answer(cleaning));
    let moving_on = listing.step(world.answer(listing));
    lemma_trace_of_moving(world, moving_on, world.names);
    assert(trace(world, listing) == seq![listing.request()] + trace(world, moving_on));
    assert(trace(world, cleaning) == seq![cleaning.request()] + trace(world, listing));
    assert(trace(world, waiting) == seq![waiting.request()] + trace(world, cleaning));
    assert(trace(world, unpacking) == seq![unpacking.request()] + trace(world, waiting));
    assert(trace(world, opening) == seq![opening.request()] + trace(world, unpacking));
    assert(trace(world, saving) == seq![saving.request()] + trace(world, opening));
    assert(trace(world, fetching) == seq![fetching.request()] + trace(world, saving));
    let tail = seq![
        SetupRequestView::Download { url: BEPINEX_URL@, user_agent: USER_AGENT@ },
        SetupRequestView::WriteFile { path: s0.archive() },
        SetupRequestView::OpenArchive { path: s0.archive() },
        SetupRequestView::Extract { into: s0.scratch() },
        SetupRequestView::Pause { seconds: 1 },
        SetupRequestView::RemoveFile { path: s0.archive() },
        SetupRequestView::ListDir { path: s0.scratch() },
    ] + moves(s0, world.names) + seq![
        SetupRequestView::RemoveDirAll { path: s0.scratch() },
        SetupRequestView::Done(Ok(())),
    ];
    assert(moves(moving_on, world.names) =~= moves(s0, world.names));
    assert(trace(world, fetching) =~= tail);
    if world.found {
        assert(s0.step(world.answer(s0)) == fetching);
        assert(trace(world, s0) == seq![s0.request()] + trace(world, fetching));
        assert(trace(world, s0) =~= plan(s0, world));
    } else {
        let making = s0.step(world.answer(s0));
        assert(making.step(world.answer(making)) == fetching);
        assert(trace(world, making) == seq![making.request()] + trace(world, fetching));
        assert(trace(world, s0) == seq![s0.request()] + trace(world, making));
        assert(trace(world, s0) =~= plan(s0, world));
    }
}

} // verus!
