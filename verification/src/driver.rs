//! The course of a whole run: find Steam, find the game, install the runtime
//! and the plugins, and tell the operator, in colour, how it went.

use vstd::prelude::*;
use crate::config::GAME_ID;
use crate::decimal::{decimal, decimal_of};
use crate::installer::{InstallResult, InstallResultView, InstallerError, InstallerErrorView};
use crate::steam::{GameView, SteamGame};
use crate::text::{chars_of, append, same_text, string_of};

verus! {

/// The colour of a line.
#[derive(Debug, Clone, Copy)]
pub enum Tone {
    Red,
    Green,
    Yellow,
    White,
    /// The colour mixed from this much red, green and blue.
    Rgb(u8, u8, u8),
}

/// The gray of the lines that say what is being done.
pub open spec fn gray() -> Tone {
    Tone::Rgb(128, 128, 128)
}

/// The parameters that select `tone` as the foreground colour in an ANSI
/// escape sequence.
pub open spec fn tone_code(tone: Tone) -> Seq<char> {
    match tone {
        Tone::Red => "31"@,
        Tone::Green => "32"@,
        Tone::Yellow => "33"@,
        Tone::White => "37"@,
        Tone::Rgb(r, g, b) => "38;2;"@ + decimal(r as nat) + ";"@ + decimal(g as nat) + ";"@
            + decimal(b as nat),
    }
}

/// `text` between the escape sequence that selects `tone` and the one that
/// resets the terminal.
pub open spec fn painted(tone: Tone, text: Seq<char>) -> Seq<char> {
    "\x1b["@ + tone_code(tone) + "m"@ + text + "\x1b[0m"@
}

/// `text` in the colour `tone`, for a terminal that reads ANSI escape
/// sequences. Stands for `Colour::paint` of `ansi_term` and the `Display` of
/// what it returns, which writes the escape sequence of a style with nothing
/// but a foreground colour, then the text, then the reset sequence.
#[verifier::external_body]
fn paint(tone: Tone, text: &str) -> (out: String)
    ensures
        out@ == painted(tone, text@),
{
    let colour = match tone {
        Tone::Red => ansi_term::Colour::Red,
        Tone::Green => ansi_term::Colour::Green,
        Tone::Yellow => ansi_term::Colour::Yellow,
        Tone::White => ansi_term::Colour::White,
        Tone::Rgb(r, g, b) => ansi_term::Colour::RGB(r, g, b),
    };
    colour.paint(text).to_string()
}

/// What the run needs next.
#[derive(Debug)]
pub enum DriverRequest {
    /// Print `line`.
    Say { line: String },
    /// Find the Steam installation.
    LocateSteam,
    /// The games of the Steam installation at `steam_path`.
    ScanGames { steam_path: String },
    /// Install the runtime and the plugins into the game directory
    /// `game_path`.
    Install { game_path: String },
    /// Nothing: the run has ended.
    Done,
}

/// A request of the run as plain text.
pub enum DriverRequestView {
    Say { line: Seq<char> },
    LocateSteam,
    ScanGames { steam_path: Seq<char> },
    Install { game_path: Seq<char> },
    Done,
}

impl View for DriverRequest {
    type V = DriverRequestView;

    open spec fn view(&self) -> DriverRequestView {
        match self {
            DriverRequest::Say { line } => DriverRequestView::Say { line: line@ },
            DriverRequest::LocateSteam => DriverRequestView::LocateSteam,
            DriverRequest::ScanGames { steam_path } => DriverRequestView::ScanGames {
                steam_path: steam_path@,
            },
            DriverRequest::Install { game_path } => DriverRequestView::Install {
                game_path: game_path@,
            },
            DriverRequest::Done => DriverRequestView::Done,
        }
    }
}

/// The outcome of a request of the run.
#[derive(Debug)]
pub enum DriverAnswer {
    /// The line was printed.
    Said,
    /// The directory of the Steam installation, if it was found.
    SteamPath(Option<String>),
    /// The games, if the library folders could be listed.
    Games(Option<Vec<SteamGame>>),
    /// The installation ended with this result.
    Installed(InstallResult),
    /// The installation ended with this error.
    InstallFailed(InstallerError),
}

/// An answer to the run as plain text.
pub enum DriverAnswerView {
    Said,
    SteamPath(Option<Seq<char>>),
    Games(Option<Seq<GameView>>),
    Installed(InstallResultView),
    InstallFailed(InstallerErrorView),
}

impl View for DriverAnswer {
    type V = DriverAnswerView;

    open spec fn view(&self) -> DriverAnswerView {
        match self {
            DriverAnswer::Said => DriverAnswerView::Said,
            DriverAnswer::SteamPath(path) => DriverAnswerView::SteamPath(path.deep_view()),
            DriverAnswer::Games(games) => DriverAnswerView::Games(games.deep_view()),
            DriverAnswer::Installed(result) => DriverAnswerView::Installed(result@),
            DriverAnswer::InstallFailed(e) => DriverAnswerView::InstallFailed(e@),
        }
    }
}

/// How far a run has come.
#[derive(Debug)]
pub enum DriverStage {
    /// Steam is looked for.
    Locating,
    /// The games are looked for.
    Scanning { steam_path: String },
    /// The runtime and the plugins are installed.
    Installing { game_path: String },
    /// Nothing is left to do.
    Finished,
}

/// A stage of the run as plain text.
pub enum StageView {
    Locating,
    Scanning { steam_path: Seq<char> },
    Installing { game_path: Seq<char> },
    Finished,
}

impl View for DriverStage {
    type V = StageView;

    open spec fn view(&self) -> StageView {
        match self {
            DriverStage::Locating => StageView::Locating,
            DriverStage::Scanning { steam_path } => StageView::Scanning {
                steam_path: steam_path@,
            },
            DriverStage::Installing { game_path } => StageView::Installing {
                game_path: game_path@,
            },
            DriverStage::Finished => StageView::Finished,
        }
    }
}

/// The first of `games` whose id is `id`.
pub open spec fn first_with_id(games: Seq<GameView>, id: Seq<char>) -> Option<GameView>
    decreases games.len(),
{
    if games.len() == 0 {
        None
    } else if games[0].id == id {
        Some(games[0])
    } else {
        first_with_id(games.skip(1), id)
    }
}

/// The state of a run as plain text.
pub struct DriverView {
    /// The lines that are still to be printed, the first of them next.
    pub lines: Seq<Seq<char>>,
    /// What is done once they are printed.
    pub stage: StageView,
}

impl DriverView {
    /// The run before anything was done.
    pub open spec fn start() -> DriverView {
        DriverView {
            lines: seq![painted(gray(), "Checking for Steam..."@)],
            stage: StageView::Locating,
        }
    }

    /// The run that has `lines` to print before it goes on at `stage`.
    pub open spec fn saying(lines: Seq<Seq<char>>, stage: StageView) -> DriverView {
        DriverView { lines, stage }
    }

    /// What the run needs next: the lines are printed before anything else
    /// is done.
    pub open spec fn request(self) -> DriverRequestView {
        if self.lines.len() > 0 {
            DriverRequestView::Say { line: self.lines[0] }
        } else {
            match self.stage {
                StageView::Locating => DriverRequestView::LocateSteam,
                StageView::Scanning { steam_path } => DriverRequestView::ScanGames { steam_path },
                StageView::Installing { game_path } => DriverRequestView::Install { game_path },
                StageView::Finished => DriverRequestView::Done,
            }
        }
    }

    /// The lines that tell how an installation went.
    pub open spec fn report(result: InstallResultView) -> Seq<Seq<char>> {
        seq![
            if result.installed_bepinex == Some(true) {
                painted(Tone::Green, "BepInEx installed!"@)
            } else {
                painted(Tone::Yellow, "BepInEx already installed!"@)
            },
            match result.plugins {
                Some(plugins) => painted(
                    Tone::Green,
                    decimal(plugins.len()) + " Plugins installed!"@,
                ),
                None => painted(Tone::Green, "No plugins installed!"@),
            },
        ]
    }

    /// The run after it was given `answer`. Without Steam, without a list
    /// of games, or without the game among them, the run says so and ends;
    /// an installation that failed is reported with its error, one that
    /// succeeded with what it did. An answer that does not fit the state
    /// changes nothing.
    pub open spec fn step(self, answer: DriverAnswerView) -> DriverView {
        if self.lines.len() > 0 {
            if answer is Said {
                DriverView { lines: self.lines.skip(1), ..self }
            } else {
                self
            }
        } else {
            match (self.stage, answer) {
                (StageView::Locating, DriverAnswerView::SteamPath(None)) => Self::saying(
                    seq![painted(Tone::Red, "Steam not found!"@)],
                    StageView::Finished,
                ),
                (StageView::Locating, DriverAnswerView::SteamPath(Some(steam_path))) => Self::saying(
                    seq![
                        painted(Tone::Green, "Steam found!"@),
                        painted(gray(), "Checking for games..."@),
                    ],
                    StageView::Scanning { steam_path },
                ),
                (StageView::Scanning { steam_path }, DriverAnswerView::Games(None)) => Self::saying(
                    seq![painted(Tone::Red, "No games found!"@)],
                    StageView::Finished,
                ),
                (
                    StageView::Scanning { steam_path },
                    DriverAnswerView::Games(Some(games)),
                ) => match first_with_id(games, GAME_ID@) {
                    None => Self::saying(
                        seq![
                            painted(Tone::Green, decimal(games.len()) + " Games found!"@),
                            painted(Tone::Red, "Soulstone Survivors not found!"@),
                        ],
                        StageView::Finished,
                    ),
                    Some(game) => Self::saying(
                        seq![
                            painted(Tone::Green, decimal(games.len()) + " Games found!"@),
                            painted(Tone::Green, "Soulstone Survivors found!"@),
                            painted(gray(), "Installing BepInEx..."@),
                        ],
                        StageView::Installing { game_path: game.path },
                    ),
                },
                (
                    StageView::Installing { game_path },
                    DriverAnswerView::InstallFailed(error),
                ) => Self::saying(seq![painted(Tone::Red, error.text())], StageView::Finished),
                (StageView::Installing { game_path }, DriverAnswerView::Installed(result)) => {
                    Self::saying(Self::report(result), StageView::Finished)
                },
                _ => self,
            }
        }
    }
}

/// A run in progress.
#[derive(Debug)]
pub struct Driver {
    lines: Vec<String>,
    stage: DriverStage,
}

impl View for Driver {
    type V = DriverView;

    closed spec fn view(&self) -> DriverView {
        DriverView { lines: self.lines.deep_view(), stage: self.stage@ }
    }
}

/// The run, before anything was done.
pub fn begin_installation() -> (out: Driver)
    ensures
        out@ == DriverView::start(),
{
    let mut lines: Vec<String> = Vec::new();
    lines.push(paint(Tone::Rgb(128, 128, 128), "Checking for Steam..."));
    assert(lines.deep_view() =~= seq![painted(gray(), "Checking for Steam..."@)]);
    Driver { lines, stage: DriverStage::Locating }
}

/// The directory of the first of `games` whose id is `id`.
fn path_of_game(games: &Vec<SteamGame>, id: &str) -> (out: Option<String>)
    ensures
        out.deep_view() == match first_with_id(games.deep_view(), id@) {
            Some(game) => Some(game.path),
            None => None,
        },
{
    let ghost all = games.deep_view();
    let mut i: usize = 0;
    proof {
        assert(all.skip(0) =~= all);
    }
    while i < games.len()
        invariant
            i <= games.len(),
            all == games.deep_view(),
            first_with_id(all, id@) == first_with_id(all.skip(i as int), id@),
        decreases games.len() - i,
    {
        proof {
            assert(all.skip(i as int).skip(1) =~= all.skip(i + 1));
            assert(all.skip(i as int)[0] == games[i as int]@);
        }
        if same_text(games[i].id.as_str(), id) {
            return Some(games[i].path.clone());
        }
        i += 1;
    }
    None
}

/// `count` in decimal, followed by `tail`.
fn counted(count: usize, tail: &str) -> (out: String)
    ensures
        out@ == decimal(count as nat) + tail@,
{
    string_of(&append(&decimal_of(count as u64), &chars_of(tail)))
}

impl Driver {
    /// What the run needs next.
    pub fn next(&self) -> (out: DriverRequest)
        ensures
            out@ == self@.request(),
    {
        if self.lines.len() > 0 {
            return DriverRequest::Say { line: self.lines[0].clone() };
        }
        match &self.stage {
            DriverStage::Locating => DriverRequest::LocateSteam,
            DriverStage::Scanning { steam_path } => DriverRequest::ScanGames {
                steam_path: steam_path.clone(),
            },
            DriverStage::Installing { game_path } => DriverRequest::Install {
                game_path: game_path.clone(),
            },
            DriverStage::Finished => DriverRequest::Done,
        }
    }

    /// The run after it was given `answer`.
    pub fn step(self, answer: DriverAnswer) -> (out: Driver)
        ensures
            out@ == self@.step(answer@),
    {
        let Driver { lines, stage } = self;
        let mut lines = lines;
        if lines.len() > 0 {
            if let DriverAnswer::Said = answer {
                let ghost before = lines.deep_view();
                lines.remove(0);
                assert(lines.deep_view() =~= before.skip(1));
            }
            return Driver { lines, stage };
        }
        let ghost empty = lines.deep_view();
        match (stage, answer) {
            (DriverStage::Locating, DriverAnswer::SteamPath(None)) => {
                lines.push(paint(Tone::Red, "Steam not found!"));
                assert(lines.deep_view() =~= seq![painted(Tone::Red, "Steam not found!"@)]);
                Driver { lines, stage: DriverStage::Finished }
            },
            (DriverStage::Locating, DriverAnswer::SteamPath(Some(steam_path))) => {
                lines.push(paint(Tone::Green, "Steam found!"));
                lines.push(paint(Tone::Rgb(128, 128, 128), "Checking for games..."));
                assert(lines.deep_view() =~= seq![
                    painted(Tone::Green, "Steam found!"@),
                    painted(gray(), "Checking for games..."@),
                ]);
                Driver { lines, stage: DriverStage::Scanning { steam_path } }
            },
            (DriverStage::Scanning { steam_path }, DriverAnswer::Games(None)) => {
                lines.push(paint(Tone::Red, "No games found!"));
                assert(lines.deep_view() =~= seq![painted(Tone::Red, "No games found!"@)]);
                Driver { lines, stage: DriverStage::Finished }
            },
            (DriverStage::Scanning { steam_path }, DriverAnswer::Games(Some(games))) => {
                let found = counted(games.len(), " Games found!");
                lines.push(paint(Tone::Green, found.as_str()));
                assert(games.deep_view().len() == games.len());
                match path_of_game(&games, GAME_ID) {
                    None => {
                        lines.push(paint(Tone::Red, "Soulstone Survivors not found!"));
                        assert(lines.deep_view() =~= seq![
                            painted(
                                Tone::Green,
                                decimal(games.deep_view().len()) + " Games found!"@,
                            ),
                            painted(Tone::Red, "Soulstone Survivors not found!"@),
                        ]);
                        Driver { lines, stage: DriverStage::Finished }
                    },
                    Some(game_path) => {
                        lines.push(paint(Tone::Green, "Soulstone Survivors found!"));
                        lines.push(paint(Tone::Rgb(128, 128, 128), "Installing BepInEx..."));
                        assert(lines.deep_view() =~= seq![
                            painted(
                                Tone::Green,
                                decimal(games.deep_view().len()) + " Games found!"@,
                            ),
                            painted(Tone::Green, "Soulstone Survivors found!"@),
                            painted(gray(), "Installing BepInEx..."@),
                        ]);
                        Driver { lines, stage: DriverStage::Installing { game_path } }
                    },
                }
            },
            (DriverStage::Installing { game_path }, DriverAnswer::InstallFailed(error)) => {
                lines.push(paint(Tone::Red, error.message().as_str()));
                assert(lines.deep_view() =~= seq![painted(Tone::Red, error@.text())]);
                Driver { lines, stage: DriverStage::Finished }
            },
            (DriverStage::Installing { game_path }, DriverAnswer::Installed(result)) => {
                if let Some(true) = result.installed_bepinex {
                    lines.push(paint(Tone::Green, "BepInEx installed!"));
                } else {
                    lines.push(paint(Tone::Yellow, "BepInEx already installed!"));
                }
                match &result.plugins {
                    Some(plugins) => {
                        let count = counted(plugins.len(), " Plugins installed!");
                        assert(plugins.deep_view().len() == plugins.len());
                        lines.push(paint(Tone::Green, count.as_str()));
                    },
                    None => {
                        lines.push(paint(Tone::Green, "No plugins installed!"));
                    },
                }
                assert(lines.deep_view() =~= DriverView::report(result@));
                Driver { lines, stage: DriverStage::Finished }
            },
            (stage, _) => Driver { lines, stage },
        }
    }
}

/// Nothing is done while a line is waiting to be printed: the lines go out
/// first, one for each time the run is told that a line was printed, in
/// the order in which they were queued.
pub proof fn law_lines_go_out_first(s: DriverView)
    requires
        s.lines.len() > 0,
    ensures
        s.request() == (DriverRequestView::Say { line: s.lines[0] }),
        s.step(DriverAnswerView::Said).lines == s.lines.skip(1),
        s.step(DriverAnswerView::Said).stage == s.stage,
{
}

/// A run that does not find Steam, that cannot list the games, or that does
/// not find the game among them, has nothing left to do but to say so.
pub proof fn law_run_ends_without_target(s: DriverView, games: Seq<GameView>)
    requires
        s.lines.len() == 0,
    ensures
        s.stage is Locating ==> s.step(DriverAnswerView::SteamPath(None)).stage is Finished,
        s.stage is Scanning ==> s.step(DriverAnswerView::Games(None)).stage is Finished,
        s.stage is Scanning && first_with_id(games, GAME_ID@) is None ==> s.step(
            DriverAnswerView::Games(Some(games)),
        ).stage is Finished,
{
}

} // verus!
