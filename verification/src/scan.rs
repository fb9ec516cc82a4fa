//! The scan of the library folders for installed games.
//!
//! The scan reads nothing itself. It says what it needs next, the listing of
//! a directory or the text of a manifest file, and is told the outcome; from
//! one to the next it keeps the games found so far.

use vstd::prelude::*;
use crate::paths::Platform;
use crate::decimal::{all_digits, law_decimal_reads_back, readable};
use crate::steam::{
    apps_dir, game_of, install_path, last_of, manifest_file, manifest_id, GameView, Steam,
    SteamGame,
};
use crate::vdf::values;

verus! {

/// One entry of a directory listing: its file name, and whether it is itself
/// a directory.
#[derive(Debug)]
pub struct DirEntry {
    pub name: String,
    pub is_dir: bool,
}

/// A directory entry as plain text.
pub struct EntryView {
    pub name: Seq<char>,
    pub is_dir: bool,
}

impl View for DirEntry {
    type V = EntryView;

    open spec fn view(&self) -> EntryView {
        EntryView { name: self.name@, is_dir: self.is_dir }
    }
}

impl DeepView for DirEntry {
    type V = EntryView;

    open spec fn deep_view(&self) -> EntryView {
        self@
    }
}

/// What the scan needs next.
#[derive(Debug)]
pub enum ScanRequest {
    /// The entries of this directory.
    ListDir(String),
    /// The text of this file.
    ReadFile(String),
    /// Nothing: the scan is complete.
    Done,
}

/// A request as plain text.
pub enum RequestView {
    ListDir(Seq<char>),
    ReadFile(Seq<char>),
    Done,
}

impl View for ScanRequest {
    type V = RequestView;

    open spec fn view(&self) -> RequestView {
        match self {
            ScanRequest::ListDir(path) => RequestView::ListDir(path@),
            ScanRequest::ReadFile(path) => RequestView::ReadFile(path@),
            ScanRequest::Done => RequestView::Done,
        }
    }
}

/// The outcome of a request.
#[derive(Debug)]
pub enum ScanAnswer {
    /// The entries of the directory, or `None` when it could not be opened.
    Listing(Option<Vec<DirEntry>>),
    /// The text of the file, or `None` when it could not be read.
    Content(Option<String>),
}

/// An answer as plain text.
pub enum AnswerView {
    Listing(Option<Seq<EntryView>>),
    Content(Option<Seq<char>>),
}

impl View for ScanAnswer {
    type V = AnswerView;

    open spec fn view(&self) -> AnswerView {
        match self {
            ScanAnswer::Listing(entries) => AnswerView::Listing(entries.deep_view()),
            ScanAnswer::Content(text) => AnswerView::Content(text.deep_view()),
        }
    }
}

/// Whether an entry is a manifest to read: a file, not a directory, whose
/// name carries an application id.
pub open spec fn is_candidate(entry: EntryView) -> bool {
    !entry.is_dir && manifest_id(entry.name) is Some
}

/// The first position at or after `from` whose entry is a manifest to read,
/// or the number of entries when there is none.
pub open spec fn next_candidate(entries: Seq<EntryView>, from: nat) -> nat
    decreases entries.len() - from,
{
    if from >= entries.len() {
        entries.len()
    } else if is_candidate(entries[from as int]) {
        from
    } else {
        next_candidate(entries, from + 1)
    }
}

/// What reading the manifest `entry` of `folder` yields: the game it
/// describes, or nothing when the file could not be read or describes none.
pub open spec fn yield_of(
    platform: Platform,
    folder: Seq<char>,
    entry: EntryView,
    content: Option<Seq<char>>,
) -> Seq<GameView> {
    match content {
        None => Seq::empty(),
        Some(text) => match game_of(platform, folder, manifest_id(entry.name).unwrap(), text) {
            Some(game) => seq![game],
            None => Seq::empty(),
        },
    }
}

/// The state of a scan as plain text.
pub struct ScanView {
    pub platform: Platform,
    /// The library folders to scan, in order.
    pub folders: Seq<Seq<char>>,
    /// The position of the folder being scanned; the number of folders when
    /// the scan is complete.
    pub folder: nat,
    /// The listing of that folder's manifest directory, once it is known.
    pub listing: Option<Seq<EntryView>>,
    /// The position in the listing of the manifest being read.
    pub entry: nat,
    /// The games found so far, in the order in which they were found.
    pub games: Seq<GameView>,
}

impl ScanView {
    /// The scan of `folders` before anything was read.
    pub open spec fn start(platform: Platform, folders: Seq<Seq<char>>) -> ScanView {
        ScanView { platform, folders, folder: 0, listing: None, entry: 0, games: Seq::empty() }
    }

    /// A scan is either complete, or waits for the listing of a folder, or
    /// waits for the text of a manifest of the listing it holds.
    pub open spec fn wf(self) -> bool {
        &&& self.folder <= self.folders.len()
        &&& match self.listing {
            None => self.entry == 0,
            Some(entries) => {
                &&& self.folder < self.folders.len()
                &&& self.entry < entries.len()
                &&& is_candidate(entries[self.entry as int])
            },
        }
    }

    /// Whether every folder has been scanned.
    pub open spec fn complete(self) -> bool {
        self.folder >= self.folders.len()
    }

    /// What the scan needs next.
    pub open spec fn request(self) -> RequestView {
        if self.complete() {
            RequestView::Done
        } else {
            let folder = self.folders[self.folder as int];
            match self.listing {
                None => RequestView::ListDir(apps_dir(self.platform, folder)),
                Some(entries) => RequestView::ReadFile(
                    manifest_file(
                        self.platform,
                        folder,
                        manifest_id(entries[self.entry as int].name).unwrap(),
                    ),
                ),
            }
        }
    }

    /// The scan moved on to the folder after the current one.
    pub open spec fn next_folder(self) -> ScanView {
        ScanView { folder: self.folder + 1, listing: None, entry: 0, ..self }
    }

    /// The scan moved on to the first manifest of `entries` at or after
    /// `from`, or to the next folder when there is none.
    pub open spec fn seek(self, entries: Seq<EntryView>, from: nat) -> ScanView {
        let at = next_candidate(entries, from);
        if at < entries.len() {
            ScanView { listing: Some(entries), entry: at, ..self }
        } else {
            self.next_folder()
        }
    }

    /// The scan after it was given `answer`. A directory that could not be
    /// opened ends its folder; a listing starts the reading of its
    /// manifests; a manifest adds the game it describes, if any, and the
    /// scan goes on behind it. An answer of the kind that was not asked for
    /// changes nothing.
    pub open spec fn step(self, answer: AnswerView) -> ScanView {
        if self.complete() {
            self
        } else {
            match (self.listing, answer) {
                (None, AnswerView::Listing(None)) => self.next_folder(),
                (None, AnswerView::Listing(Some(entries))) => self.seek(entries, 0),
                (Some(entries), AnswerView::Content(content)) => {
                    let found = yield_of(
                        self.platform,
                        self.folders[self.folder as int],
                        entries[self.entry as int],
                        content,
                    );
                    ScanView { games: self.games + found, ..self }.seek(entries, self.entry + 1)
                },
                _ => self,
            }
        }
    }
}

/// A scan of library folders in progress.
pub struct GameScan {
    platform: Platform,
    folders: Vec<String>,
    folder: usize,
    listing: Option<Vec<DirEntry>>,
    entry: usize,
    games: Vec<SteamGame>,
}

impl View for GameScan {
    type V = ScanView;

    closed spec fn view(&self) -> ScanView {
        ScanView {
            platform: self.platform,
            folders: self.folders.deep_view(),
            folder: self.folder as nat,
            listing: self.listing.deep_view(),
            entry: self.entry as nat,
            games: self.games.deep_view(),
        }
    }
}

impl GameScan {
    #[verifier::type_invariant]
    spec fn inv(self) -> bool {
        self@.wf()
    }

    /// Whether an entry is a manifest to read.
    fn candidate(entry: &DirEntry) -> (yes: bool)
        ensures
            yes == is_candidate(entry@),
    {
        !entry.is_dir && Steam::manifest_id(entry.name.as_str()).is_some()
    }

    /// The scan of `folder`, whose listing is `entries`, positioned at the
    /// first manifest at or after `from`.
    fn positioned(
        platform: Platform,
        folders: Vec<String>,
        folder: usize,
        entries: Vec<DirEntry>,
        from: usize,
        games: Vec<SteamGame>,
    ) -> (out: GameScan)
        requires
            folder < folders.len(),
            from <= entries.len(),
        ensures
            out@ == (ScanView {
                platform,
                folders: folders.deep_view(),
                folder: folder as nat,
                listing: None,
                entry: 0,
                games: games.deep_view(),
            }).seek(entries.deep_view(), from as nat),
    {
        let mut at: usize = from;
        while at < entries.len() && !Self::candidate(&entries[at])
            invariant
                from <= at <= entries.len(),
                next_candidate(entries.deep_view(), from as nat) == next_candidate(
                    entries.deep_view(),
                    at as nat,
                ),
            decreases entries.len() - at,
        {
            at += 1;
        }
        if at < entries.len() {
            GameScan { platform, folders, folder, listing: Some(entries), entry: at, games }
        } else {
            GameScan { platform, folders, folder: folder + 1, listing: None, entry: 0, games }
        }
    }

    /// What the scan needs next.
    pub fn next(&self) -> (out: ScanRequest)
        ensures
            out@ == self@.request(),
            self@.wf(),
    {
        proof {
            use_type_invariant(self);
        }
        if self.folder >= self.folders.len() {
            return ScanRequest::Done;
        }
        let folder = self.folders[self.folder].as_str();
        match &self.listing {
            None => ScanRequest::ListDir(Steam::manifest_dir(self.platform, folder)),
            Some(entries) => {
                let id = Steam::manifest_id(entries[self.entry].name.as_str());
                match id {
                    Some(id) => ScanRequest::ReadFile(
                        Steam::manifest_path(self.platform, folder, id.as_str()),
                    ),
                    None => ScanRequest::Done,
                }
            },
        }
    }

    /// The scan after it was given `answer`.
    pub fn step(self, answer: ScanAnswer) -> (out: GameScan)
        ensures
            out@ == self@.step(answer@),
            out@.wf(),
    {
        proof {
            use_type_invariant(&self);
        }
        if self.folder >= self.folders.len() {
            return self;
        }
        let GameScan { platform, folders, folder, listing, entry, games } = self;
        let out = match (listing, answer) {
            (None, ScanAnswer::Listing(None)) => GameScan {
                platform,
                folders,
                folder: folder + 1,
                listing: None,
                entry: 0,
                games,
            },
            (None, ScanAnswer::Listing(Some(entries))) => Self::positioned(
                platform,
                folders,
                folder,
                entries,
                0,
                games,
            ),
            (Some(entries), ScanAnswer::Content(content)) => {
                let mut games = games;
                let ghost before = games.deep_view();
                assert(entry < entries.len()) by {
                    assert(entries.deep_view().len() == entries.len());
                }
                match content {
                    None => {},
                    Some(text) => {
                        let id = Steam::manifest_id(entries[entry].name.as_str());
                        match id {
                            Some(id) => {
                                let game = Steam::game_from_manifest(
                                    platform,
                                    folders[folder].as_str(),
                                    id.as_str(),
                                    text.as_str(),
                                );
                                match game {
                                    Some(game) => {
                                        games.push(game);
                                    },
                                    None => {},
                                }
                            },
                            None => {},
                        }
                    },
                }
                proof {
                    let found = yield_of(
                        platform,
                        folders.deep_view()[folder as int],
                        entries.deep_view()[entry as int],
                        content.deep_view(),
                    );
                    assert(games.deep_view() =~= before + found);
                }
                Self::positioned(platform, folders, folder, entries, entry + 1, games)
            },
            (listing, _) => GameScan { platform, folders, folder, listing, entry, games },
        };
        proof {
            use_type_invariant(&out);
        }
        out
    }

    /// Whether the scan is complete.
    pub fn is_done(&self) -> (yes: bool)
        ensures
            yes == self@.complete(),
    {
        self.folder >= self.folders.len()
    }

    /// The games found so far, in the order in which they were found.
    pub fn games(self) -> (out: Vec<SteamGame>)
        ensures
            out.deep_view() == self@.games,
    {
        self.games
    }
}

impl Steam {
    /// The scan of the library folders `folders` for installed games; `None`
    /// when the folders could not be listed.
    pub fn iterate_games(platform: Platform, folders: Option<Vec<String>>) -> (out: Option<GameScan>)
        ensures
            match folders {
                Some(list) => out matches Some(scan) && scan@ == ScanView::start(
                    platform,
                    list.deep_view(),
                ),
                None => out is None,
            },
    {
        match folders {
            None => None,
            Some(list) => {
                let games: Vec<SteamGame> = Vec::new();
                assert(games.deep_view() =~= Seq::<GameView>::empty());
                Some(GameScan { platform, folders: list, folder: 0, listing: None, entry: 0, games })
            },
        }
    }
}

/// `next_candidate` stays in range and, short of the end, points at a
/// manifest to read.
pub proof fn lemma_next_candidate(entries: Seq<EntryView>, from: nat)
    requires
        from <= entries.len(),
    ensures
        from <= next_candidate(entries, from) <= entries.len(),
        next_candidate(entries, from) < entries.len() ==> is_candidate(
            entries[next_candidate(entries, from) as int],
        ),
    decreases entries.len() - from,
{
    if from < entries.len() && !is_candidate(entries[from as int]) {
        lemma_next_candidate(entries, from + 1);
    }
}

/// A folder whose manifest directory cannot be opened is passed over: the
/// scan keeps the games it has and goes on with the folder after it, or is
/// complete when there is none.
pub proof fn law_unopened_folder_is_skipped(s: ScanView)
    requires
        s.wf(),
        !s.complete(),
        s.listing is None,
    ensures
        s.step(AnswerView::Listing(None)) == s.next_folder(),
        s.step(AnswerView::Listing(None)).wf(),
        s.step(AnswerView::Listing(None)).games == s.games,
        s.step(AnswerView::Listing(None)).complete() <==> s.folder + 1 == s.folders.len(),
        s.folder + 1 < s.folders.len() ==> s.step(AnswerView::Listing(None)).request()
            == RequestView::ListDir(apps_dir(s.platform, s.folders[s.folder as int + 1])),
{
}

/// A manifest that names no game, for want of a name or of an install
/// directory, adds nothing: the scan keeps the games it has and goes on with
/// the entries behind that manifest, exactly as after a manifest that could
/// not be read.
pub proof fn law_incomplete_manifest_is_skipped(s: ScanView, text: Seq<char>)
    requires
        s.wf(),
        !s.complete(),
        s.listing is Some,
        game_of(
            s.platform,
            s.folders[s.folder as int],
            manifest_id(s.listing.unwrap()[s.entry as int].name).unwrap(),
            text,
        ) is None,
    ensures
        s.step(AnswerView::Content(Some(text))) == s.seek(s.listing.unwrap(), s.entry + 1),
        s.step(AnswerView::Content(Some(text))) == s.step(AnswerView::Content(None)),
        s.step(AnswerView::Content(Some(text))).wf(),
        s.step(AnswerView::Content(Some(text))).games == s.games,
{
    let entries = s.listing.unwrap();
    lemma_next_candidate(entries, s.entry + 1);
    assert(s.games + Seq::<GameView>::empty() =~= s.games);
}

/// A manifest without a line for the name, or without one for the install
/// directory, names no game.
pub proof fn law_manifest_without_field_names_no_game(
    platform: Platform,
    folder: Seq<char>,
    id: Seq<char>,
    text: Seq<char>,
)
    requires
        values(text, "name"@).len() == 0 || values(text, "installdir"@).len() == 0,
    ensures
        game_of(platform, folder, id, text) is None,
{
}

/// What a disk holds, as far as the scan can see it: the listing of every
/// directory that can be opened and the text of every file that can be read.
pub struct Disk {
    pub dirs: Map<Seq<char>, Seq<EntryView>>,
    pub files: Map<Seq<char>, Seq<char>>,
}

impl Disk {
    /// The entries of the directory `path`, if it can be opened.
    pub open spec fn listing(self, path: Seq<char>) -> Option<Seq<EntryView>> {
        if self.dirs.contains_key(path) {
            Some(self.dirs[path])
        } else {
            None
        }
    }

    /// The text of the file `path`, if it can be read.
    pub open spec fn content(self, path: Seq<char>) -> Option<Seq<char>> {
        if self.files.contains_key(path) {
            Some(self.files[path])
        } else {
            None
        }
    }

    /// The answer that this disk gives to `request`.
    pub open spec fn answer(self, request: RequestView) -> AnswerView {
        match request {
            RequestView::ListDir(path) => AnswerView::Listing(self.listing(path)),
            RequestView::ReadFile(path) => AnswerView::Content(self.content(path)),
            RequestView::Done => AnswerView::Listing(None),
        }
    }

    /// The games of the manifests among `entries`, from position `from` on,
    /// of the library folder `folder`.
    pub open spec fn games_from(
        self,
        platform: Platform,
        folder: Seq<char>,
        entries: Seq<EntryView>,
        from: nat,
    ) -> Seq<GameView>
        decreases entries.len() - from,
    {
        if from >= entries.len() {
            Seq::empty()
        } else if is_candidate(entries[from as int]) {
            yield_of(
                platform,
                folder,
                entries[from as int],
                self.content(
                    manifest_file(platform, folder, manifest_id(entries[from as int].name).unwrap()),
                ),
            ) + self.games_from(platform, folder, entries, from + 1)
        } else {
            self.games_from(platform, folder, entries, from + 1)
        }
    }

    /// The games of the library folder `folder`: none when its manifest
    /// directory cannot be opened.
    pub open spec fn games_in(self, platform: Platform, folder: Seq<char>) -> Seq<GameView> {
        match self.listing(apps_dir(platform, folder)) {
            None => Seq::empty(),
            Some(entries) => self.games_from(platform, folder, entries, 0),
        }
    }

    /// The games of the library folders `folders` from position `from` on,
    /// folder after folder.
    pub open spec fn games_of(self, platform: Platform, folders: Seq<Seq<char>>, from: nat) -> Seq<
        GameView,
    >
        decreases folders.len() - from,
    {
        if from >= folders.len() {
            Seq::empty()
        } else {
            self.games_in(platform, folders[from as int]) + self.games_of(
                platform,
                folders,
                from + 1,
            )
        }
    }

    /// The games that the scan `s` has yet to find on this disk.
    pub open spec fn remaining(self, s: ScanView) -> Seq<GameView> {
        if s.complete() {
            Seq::empty()
        } else {
            match s.listing {
                None => self.games_of(s.platform, s.folders, s.folder),
                Some(entries) => self.games_from(
                    s.platform,
                    s.folders[s.folder as int],
                    entries,
                    s.entry,
                ) + self.games_of(s.platform, s.folders, s.folder + 1),
            }
        }
    }
}

/// After a listing that is exhausted from `from` on without a manifest, the
/// folder has no more games.
proof fn lemma_no_candidate_no_games(
    disk: Disk,
    platform: Platform,
    folder: Seq<char>,
    entries: Seq<EntryView>,
    from: nat,
)
    requires
        from <= entries.len(),
    ensures
        disk.games_from(platform, folder, entries, from) == disk.games_from(
            platform,
            folder,
            entries,
            next_candidate(entries, from),
        ),
    decreases entries.len() - from,
{
    if from < entries.len() && !is_candidate(entries[from as int]) {
        lemma_no_candidate_no_games(disk, platform, folder, entries, from + 1);
    }
}

/// One step of a scan that is served by a disk keeps the scan well formed
/// and neither loses nor invents a game: what it has found together with
/// what it has yet to find stays the same.
pub proof fn law_step_conserves_games(disk: Disk, s: ScanView)
    requires
        s.wf(),
        !s.complete(),
    ensures
        s.step(disk.answer(s.request())).wf(),
        s.step(disk.answer(s.request())).games + disk.remaining(s.step(disk.answer(s.request())))
            == s.games + disk.remaining(s),
{
    let t = s.step(disk.answer(s.request()));
    let folder = s.folders[s.folder as int];
    let later = disk.games_of(s.platform, s.folders, s.folder + 1);
    match s.listing {
        None => {
            match disk.listing(apps_dir(s.platform, folder)) {
                None => {
                    assert(disk.games_in(s.platform, folder) + later =~= later);
                },
                Some(entries) => {
                    lemma_next_candidate(entries, 0);
                    lemma_no_candidate_no_games(disk, s.platform, folder, entries, 0);
                    let at = next_candidate(entries, 0);
                    if at >= entries.len() {
                        assert(disk.games_in(s.platform, folder) + later =~= later);
                    }
                },
            }
            assert(t.games + disk.remaining(t) =~= s.games + disk.remaining(s));
        },
        Some(entries) => {
            let found = yield_of(
                s.platform,
                folder,
                entries[s.entry as int],
                disk.content(
                    manifest_file(
                        s.platform,
                        folder,
                        manifest_id(entries[s.entry as int].name).unwrap(),
                    ),
                ),
            );
            lemma_next_candidate(entries, s.entry + 1);
            lemma_no_candidate_no_games(disk, s.platform, folder, entries, s.entry + 1);
            let rest = disk.games_from(s.platform, folder, entries, s.entry + 1);
            assert(disk.games_from(s.platform, folder, entries, s.entry) == found + rest);
            let at = next_candidate(entries, s.entry + 1);
            if at >= entries.len() {
                assert(rest =~= Seq::<GameView>::empty());
            }
            assert(t.games + disk.remaining(t) =~= s.games + disk.remaining(s));
        },
    }
}

/// The games that the scan `s` holds once it has run to its end with every
/// request answered by `disk`.
pub open spec fn run(disk: Disk, s: ScanView) -> Seq<GameView>
    decreases
            s.folders.len() - s.folder,
            (if s.listing is None {
                1int
            } else {
                0int
            }),
            (match s.listing {
                Some(entries) => entries.len() - s.entry,
                None => 0,
            }),
    when s.wf()
{
    if s.complete() {
        s.games
    } else {
        proof {
            lemma_step_advances(s, disk.answer(s.request()));
        }
        run(disk, s.step(disk.answer(s.request())))
    }
}

/// A step on an answer of the kind that was asked for brings the scan
/// closer to its end: to a later folder, or from the listing of a folder to
/// its manifests, or to a later manifest of the same listing.
pub proof fn lemma_step_advances(s: ScanView, answer: AnswerView)
    requires
        s.wf(),
        !s.complete(),
        s.listing is None <==> answer is Listing,
    ensures
        s.step(answer).wf(),
        s.step(answer).folder > s.folder || (s.step(answer).folder == s.folder && s.step(
            answer,
        ).listing is Some && (s.listing is Some ==> s.step(answer).listing == s.listing && s.step(
            answer,
        ).entry > s.entry)),
{
    match s.listing {
        None => {
            if let AnswerView::Listing(Some(entries)) = answer {
                lemma_next_candidate(entries, 0);
            }
        },
        Some(entries) => {
            lemma_next_candidate(entries, s.entry + 1);
        },
    }
}

/// A scan that is served by a disk ends with the games it had and the games
/// it had yet to find, in that order.
proof fn lemma_run(disk: Disk, s: ScanView)
    requires
        s.wf(),
    ensures
        run(disk, s) == s.games + disk.remaining(s),
    decreases
            s.folders.len() - s.folder,
            (if s.listing is None {
                1int
            } else {
                0int
            }),
            (match s.listing {
                Some(entries) => entries.len() - s.entry,
                None => 0,
            }),
{
    if s.complete() {
        assert(s.games + disk.remaining(s) =~= s.games);
    } else {
        lemma_step_advances(s, disk.answer(s.request()));
        law_step_conserves_games(disk, s);
        lemma_run(disk, s.step(disk.answer(s.request())));
    }
}

/// A scan of `folders` that is served by a disk finds exactly the games of
/// the manifests on that disk: folder after folder in the order given, and
/// within a folder in the order of its listing.
pub proof fn law_scan_finds_the_games_on_disk(
    disk: Disk,
    platform: Platform,
    folders: Seq<Seq<char>>,
)
    ensures
        run(disk, ScanView::start(platform, folders)) == disk.games_of(platform, folders, 0),
{
    let start = ScanView::start(platform, folders);
    lemma_run(disk, start);
    assert(start.games + disk.remaining(start) =~= disk.games_of(platform, folders, 0));
}

impl Disk {
    /// Whether entry `j` of the manifest directory of `folder` is a manifest
    /// that can be read and describes the game `g`.
    pub open spec fn describes(self, platform: Platform, folder: Seq<char>, j: int, g: GameView) -> bool {
        &&& self.listing(apps_dir(platform, folder)) matches Some(entries)
        &&& 0 <= j < entries.len()
        &&& is_candidate(entries[j])
        &&& self.content(
            manifest_file(platform, folder, manifest_id(entries[j].name).unwrap()),
        ) matches Some(text)
        &&& game_of(platform, folder, manifest_id(entries[j].name).unwrap(), text) == Some(g)
    }

    /// Whether a manifest of the library folder `folder` describes `g`.
    pub open spec fn has_in(self, platform: Platform, folder: Seq<char>, g: GameView) -> bool {
        exists|j: int| self.describes(platform, folder, j, g)
    }

    /// Whether a manifest of one of `folders` describes `g`.
    pub open spec fn has(self, platform: Platform, folders: Seq<Seq<char>>, g: GameView) -> bool {
        exists|i: int|
            0 <= i < folders.len() && #[trigger] self.has_in(platform, folders[i], g)
    }
}

/// Every game among those of a listing is described by a manifest of that
/// listing.
proof fn lemma_games_from_are_described(
    disk: Disk,
    platform: Platform,
    folder: Seq<char>,
    entries: Seq<EntryView>,
    from: nat,
    k: int,
)
    requires
        disk.listing(apps_dir(platform, folder)) == Some(entries),
        0 <= k < disk.games_from(platform, folder, entries, from).len(),
    ensures
        disk.has_in(platform, folder, disk.games_from(platform, folder, entries, from)[k]),
    decreases entries.len() - from,
{
    if from < entries.len() {
        if is_candidate(entries[from as int]) {
            let found = yield_of(
                platform,
                folder,
                entries[from as int],
                disk.content(
                    manifest_file(platform, folder, manifest_id(entries[from as int].name).unwrap()),
                ),
            );
            if k < found.len() {
                let g = disk.games_from(platform, folder, entries, from)[k];
                assert(g == found[k]);
                assert(disk.describes(platform, folder, from as int, g));
            } else {
                lemma_games_from_are_described(
                    disk,
                    platform,
                    folder,
                    entries,
                    from + 1,
                    k - found.len(),
                );
            }
        } else {
            lemma_games_from_are_described(disk, platform, folder, entries, from + 1, k);
        }
    }
}

/// Every game among those of the folders is described by a manifest of one
/// of them.
proof fn lemma_games_of_are_described(
    disk: Disk,
    platform: Platform,
    folders: Seq<Seq<char>>,
    from: nat,
    k: int,
)
    requires
        0 <= k < disk.games_of(platform, folders, from).len(),
    ensures
        disk.has(platform, folders, disk.games_of(platform, folders, from)[k]),
    decreases folders.len() - from,
{
    if from < folders.len() {
        let folder = folders[from as int];
        let here = disk.games_in(platform, folder);
        if k < here.len() {
            let entries = disk.listing(apps_dir(platform, folder)).unwrap();
            lemma_games_from_are_described(disk, platform, folder, entries, 0, k);
            assert(disk.has_in(platform, folders[from as int], here[k]));
        } else {
            lemma_games_of_are_described(disk, platform, folders, from + 1, k - here.len());
        }
    }
}

/// A game that a manifest of a listing describes is among the games of that
/// listing.
proof fn lemma_described_is_in_games_from(
    disk: Disk,
    platform: Platform,
    folder: Seq<char>,
    entries: Seq<EntryView>,
    from: nat,
    j: int,
    g: GameView,
)
    requires
        disk.listing(apps_dir(platform, folder)) == Some(entries),
        from <= j,
        disk.describes(platform, folder, j, g),
    ensures
        disk.games_from(platform, folder, entries, from).contains(g),
    decreases j - from,
{
    let all = disk.games_from(platform, folder, entries, from);
    if from == j {
        assert(all[0] == g);
    } else {
        lemma_described_is_in_games_from(disk, platform, folder, entries, from + 1, j, g);
        let rest = disk.games_from(platform, folder, entries, from + 1);
        let at = choose|at: int| 0 <= at < rest.len() && rest[at] == g;
        assert(all[all.len() - rest.len() + at] == g);
    }
}

/// A game that a manifest of one of the folders describes is among the
/// games of the folders.
proof fn lemma_described_is_in_games_of(
    disk: Disk,
    platform: Platform,
    folders: Seq<Seq<char>>,
    from: nat,
    i: int,
    g: GameView,
)
    requires
        from <= i < folders.len(),
        disk.has_in(platform, folders[i], g),
    ensures
        disk.games_of(platform, folders, from).contains(g),
    decreases i - from,
{
    let all = disk.games_of(platform, folders, from);
    let here = disk.games_in(platform, folders[from as int]);
    if from == i {
        let j = choose|j: int| disk.describes(platform, folders[i], j, g);
        let entries = disk.listing(apps_dir(platform, folders[i])).unwrap();
        lemma_described_is_in_games_from(disk, platform, folders[i], entries, 0, j, g);
        let at = choose|at: int| 0 <= at < here.len() && here[at] == g;
        assert(all[at] == g);
    } else {
        lemma_described_is_in_games_of(disk, platform, folders, from + 1, i, g);
        let rest = disk.games_of(platform, folders, from + 1);
        let at = choose|at: int| 0 <= at < rest.len() && rest[at] == g;
        assert(all[here.len() + at] == g);
    }
}

/// A scan invents no game: every game that a scan of `folders` ends with is
/// described by a manifest that lies, readable, in the manifest directory of
/// one of the folders.
pub proof fn law_scan_invents_no_game(
    disk: Disk,
    platform: Platform,
    folders: Seq<Seq<char>>,
    k: int,
)
    requires
        0 <= k < run(disk, ScanView::start(platform, folders)).len(),
    ensures
        disk.has(platform, folders, run(disk, ScanView::start(platform, folders))[k]),
{
    law_scan_finds_the_games_on_disk(disk, platform, folders);
    lemma_games_of_are_described(disk, platform, folders, 0, k);
}

/// A scan omits no game: a game that a readable manifest in the manifest
/// directory of one of `folders` describes is among the games that a scan of
/// `folders` ends with.
pub proof fn law_scan_omits_no_game(
    disk: Disk,
    platform: Platform,
    folders: Seq<Seq<char>>,
    g: GameView,
)
    requires
        disk.has(platform, folders, g),
    ensures
        run(disk, ScanView::start(platform, folders)).contains(g),
{
    law_scan_finds_the_games_on_disk(disk, platform, folders);
    let i = choose|i: int|
        0 <= i < folders.len() && #[trigger] disk.has_in(platform, folders[i], g);
    lemma_described_is_in_games_of(disk, platform, folders, 0, i, g);
}

/// What a manifest says of the game it describes: the game's id is the
/// number in the manifest's file name, in digits; the manifest lies in the
/// folder under the name that this id gives; the game's name is the
/// manifest's, and is not empty; and the game is installed below the
/// folder's `steamapps/common`, in the directory that the manifest names,
/// whose name is not empty.
pub proof fn law_described_game_is_as_its_manifest_says(
    disk: Disk,
    platform: Platform,
    folder: Seq<char>,
    j: int,
    g: GameView,
)
    requires
        disk.describes(platform, folder, j, g),
    ensures
        all_digits(g.id),
        g.id.len() > 0,
        disk.content(manifest_file(platform, folder, g.id)) matches Some(text) && game_of(
            platform,
            folder,
            g.id,
            text,
        ) == Some(g) && g.name == last_of(values(text, "name"@)) && g.path == install_path(
            platform,
            folder,
            last_of(values(text, "installdir"@)),
        ) && last_of(values(text, "installdir"@)).len() > 0,
        g.name.len() > 0,
{
    let entries = disk.listing(apps_dir(platform, folder)).unwrap();
    let name = entries[j].name;
    let head = "appmanifest_"@;
    let tail = ".acf"@;
    let n = readable(name.subrange(head.len() as int, name.len() - tail.len())).unwrap();
    law_decimal_reads_back(n as nat);
}

} // verus!
