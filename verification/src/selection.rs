//! Offering the plugins of the catalog to the operator, one by one, and
//! downloading those that the operator accepts.

use vstd::prelude::*;
use crate::installer::{copy_installer_error, Installer, InstallerError, InstallerErrorView};
use crate::plugin::{copy_plugin, copy_plugins, Plugin, PluginError, PluginErrorView, PluginView};
use crate::text::{chars_of, glue};

verus! {

/// Whether `c` is white space.
pub open spec fn is_space(c: char) -> bool {
    ||| '\u{9}' <= c <= '\u{d}'
    ||| c == ' '
    ||| c == '\u{85}'
    ||| c == '\u{a0}'
    ||| c == '\u{1680}'
    ||| '\u{2000}' <= c <= '\u{200a}'
    ||| c == '\u{2028}'
    ||| c == '\u{2029}'
    ||| c == '\u{202f}'
    ||| c == '\u{205f}'
    ||| c == '\u{3000}'
}

/// Whether `line` says yes: it holds one `y`, in either case, and white
/// space around it, nothing else.
pub open spec fn is_yes(line: Seq<char>) -> bool {
    exists|i: int|
        0 <= i < line.len() && (line[i] == 'y' || line[i] == 'Y') && forall|j: int|
            0 <= j < line.len() && j != i ==> is_space(#[trigger] line[j])
}

/// The question put to the operator about the plugin `name`.
pub open spec fn question(name: Seq<char>) -> Seq<char> {
    "Do you want to install "@ + name + "? (Y/N)"@
}

/// The line that announces the download of the plugin `name`.
pub open spec fn announcement(name: Seq<char>) -> Seq<char> {
    "Downloading "@ + name + "..."@
}

/// The line that reports that the plugin `name` was downloaded.
pub open spec fn success_line(name: Seq<char>) -> Seq<char> {
    name + " downloaded successfully!"@
}

/// The line that reports that the download of the plugin `name` failed.
pub open spec fn failure_line(name: Seq<char>, error: PluginErrorView) -> Seq<char> {
    "Error downloading "@ + name + ": "@ + error.text()
}

/// Whether `c` is white space.
pub fn is_whitespace(c: char) -> (yes: bool)
    ensures
        yes == is_space(c),
{
    (c >= '\u{9}' && c <= '\u{d}') || c == ' ' || c == '\u{85}' || c == '\u{a0}' || c
        == '\u{1680}' || (c >= '\u{2000}' && c <= '\u{200a}') || c == '\u{2028}' || c
        == '\u{2029}' || c == '\u{202f}' || c == '\u{205f}' || c == '\u{3000}'
}

/// Whether `line` says yes.
pub fn confirms(line: &str) -> (yes: bool)
    ensures
        yes == is_yes(line@),
{
    let chars = chars_of(line);
    let mut at: Option<usize> = None;
    let mut i: usize = 0;
    while i < chars.len()
        invariant
            i <= chars.len(),
            chars@ == line@,
            match at {
                None => forall|j: int| 0 <= j < i ==> is_space(#[trigger] chars@[j]),
                Some(k) => k < i && (chars@[k as int] == 'y' || chars@[k as int] == 'Y')
                    && forall|j: int| 0 <= j < i && j != k ==> is_space(#[trigger] chars@[j]),
            },
        decreases chars.len() - i,
    {
        let c = chars[i];
        if c == 'y' || c == 'Y' {
            match at {
                Some(k) => {
                    proof {
                        if is_yes(line@) {
                            let w = choose|w: int|
                                0 <= w < line@.len() && (line@[w] == 'y' || line@[w] == 'Y')
                                    && forall|j: int|
                                    0 <= j < line@.len() && j != w ==> is_space(
                                        #[trigger] line@[j],
                                    );
                            if w == k as int {
                                assert(is_space(line@[i as int]));
                            } else {
                                assert(is_space(line@[k as int]));
                            }
                        }
                    }
                    return false;
                },
                None => {
                    at = Some(i);
                },
            }
        } else if !is_whitespace(c) {
            proof {
                if is_yes(line@) {
                    let w = choose|w: int|
                        0 <= w < line@.len() && (line@[w] == 'y' || line@[w] == 'Y')
                            && forall|j: int|
                            0 <= j < line@.len() && j != w ==> is_space(#[trigger] line@[j]);
                    assert(is_space(line@[i as int]));
                }
            }
            return false;
        }
        i += 1;
    }
    match at {
        Some(k) => {
            assert(is_yes(line@)) by {
                let w = k as int;
                assert(0 <= w < line@.len() && (line@[w] == 'y' || line@[w] == 'Y'));
            }
            true
        },
        None => {
            proof {
                if is_yes(line@) {
                    let w = choose|w: int|
                        0 <= w < line@.len() && (line@[w] == 'y' || line@[w] == 'Y')
                            && forall|j: int|
                            0 <= j < line@.len() && j != w ==> is_space(#[trigger] line@[j]);
                    assert(is_space(line@[w]));
                }
            }
            false
        },
    }
}

/// What the selection needs next.
#[derive(Debug)]
pub enum SelectionRequest {
    /// The plugins of the catalog.
    ListPlugins,
    /// Print `line` and read one line from the operator.
    Ask { line: String },
    /// Print `line`.
    Say { line: String },
    /// Download `plugin` into the game directory `path`.
    Download { plugin: Plugin, path: String },
    /// Nothing: the selection has ended, with the plugins that were
    /// installed or with this error.
    Done(Result<Vec<Plugin>, InstallerError>),
}

/// A selection request as plain text.
pub enum SelectionRequestView {
    ListPlugins,
    Ask { line: Seq<char> },
    Say { line: Seq<char> },
    Download { plugin: PluginView, path: Seq<char> },
    Done(Result<Seq<PluginView>, InstallerErrorView>),
}

impl View for SelectionRequest {
    type V = SelectionRequestView;

    open spec fn view(&self) -> SelectionRequestView {
        match self {
            SelectionRequest::ListPlugins => SelectionRequestView::ListPlugins,
            SelectionRequest::Ask { line } => SelectionRequestView::Ask { line: line@ },
            SelectionRequest::Say { line } => SelectionRequestView::Say { line: line@ },
            SelectionRequest::Download { plugin, path } => SelectionRequestView::Download {
                plugin: plugin@,
                path: path@,
            },
            SelectionRequest::Done(Ok(plugins)) => SelectionRequestView::Done(
                Ok(plugins.deep_view()),
            ),
            SelectionRequest::Done(Err(e)) => SelectionRequestView::Done(Err(e@)),
        }
    }
}

/// The outcome of a selection request.
#[derive(Debug)]
pub enum SelectionAnswer {
    /// The plugins of the catalog.
    Catalog(Vec<Plugin>),
    /// The catalog could not be had; the text says why.
    CatalogFailed(String),
    /// The line that the operator typed.
    Line(String),
    /// The line was printed.
    Said,
    /// The plugin was downloaded.
    Downloaded,
    /// The plugin was not downloaded.
    DownloadFailed(PluginError),
}

/// A selection answer as plain text.
pub enum SelectionAnswerView {
    Catalog(Seq<PluginView>),
    CatalogFailed(Seq<char>),
    Line(Seq<char>),
    Said,
    Downloaded,
    DownloadFailed(PluginErrorView),
}

impl View for SelectionAnswer {
    type V = SelectionAnswerView;

    open spec fn view(&self) -> SelectionAnswerView {
        match self {
            SelectionAnswer::Catalog(plugins) => SelectionAnswerView::Catalog(plugins.deep_view()),
            SelectionAnswer::CatalogFailed(m) => SelectionAnswerView::CatalogFailed(m@),
            SelectionAnswer::Line(line) => SelectionAnswerView::Line(line@),
            SelectionAnswer::Said => SelectionAnswerView::Said,
            SelectionAnswer::Downloaded => SelectionAnswerView::Downloaded,
            SelectionAnswer::DownloadFailed(e) => SelectionAnswerView::DownloadFailed(e@),
        }
    }
}

/// How far a selection has come.
#[derive(Debug)]
enum Progress {
    Listing,
    Asking,
    Announcing,
    Downloading,
    Reporting { line: String },
    Ended { failure: Option<InstallerError> },
}

/// How far a selection has come, as plain text.
pub enum SelectionStage {
    /// The catalog is to be had.
    Listing,
    /// The operator is asked about the present plugin.
    Asking,
    /// The download of the present plugin is announced.
    Announcing,
    /// The present plugin is downloaded.
    Downloading,
    /// The outcome of the download is reported with `line`.
    Reporting { line: Seq<char> },
    /// The selection has ended, with this error if any.
    Ended { failure: Option<InstallerErrorView> },
}

/// The state of a selection as plain text.
pub struct SelectionView {
    /// The game directory.
    pub path: Seq<char>,
    /// The plugins of the catalog.
    pub plugins: Seq<PluginView>,
    /// The position of the present plugin.
    pub at: nat,
    /// The plugins installed so far.
    pub installed: Seq<PluginView>,
    pub stage: SelectionStage,
}

impl SelectionView {
    /// The selection for the game directory `path` before anything was done.
    pub open spec fn start(path: Seq<char>) -> SelectionView {
        SelectionView {
            path,
            plugins: Seq::empty(),
            at: 0,
            installed: Seq::empty(),
            stage: SelectionStage::Listing,
        }
    }

    /// While a plugin is being dealt with, there is such a plugin.
    pub open spec fn wf(self) -> bool {
        match self.stage {
            SelectionStage::Listing => true,
            SelectionStage::Ended { failure } => true,
            _ => self.at < self.plugins.len(),
        }
    }

    /// The present plugin.
    pub open spec fn present(self) -> PluginView {
        self.plugins[self.at as int]
    }

    /// The selection turned to the plugin at position `at`, or ended when
    /// there is none.
    pub open spec fn turned_to(self, at: nat) -> SelectionView {
        if at < self.plugins.len() {
            SelectionView { at, stage: SelectionStage::Asking, ..self }
        } else {
            SelectionView { at, stage: SelectionStage::Ended { failure: None }, ..self }
        }
    }

    /// What the selection needs next.
    pub open spec fn request(self) -> SelectionRequestView {
        match self.stage {
            SelectionStage::Listing => SelectionRequestView::ListPlugins,
            SelectionStage::Asking => SelectionRequestView::Ask {
                line: question(self.present().name),
            },
            SelectionStage::Announcing => SelectionRequestView::Say {
                line: announcement(self.present().name),
            },
            SelectionStage::Downloading => SelectionRequestView::Download {
                plugin: self.present(),
                path: self.path,
            },
            SelectionStage::Reporting { line } => SelectionRequestView::Say { line },
            SelectionStage::Ended { failure: None } => SelectionRequestView::Done(
                Ok(self.installed),
            ),
            SelectionStage::Ended { failure: Some(e) } => SelectionRequestView::Done(Err(e)),
        }
    }

    /// The selection after it was given `answer`. A catalog that could not
    /// be had ends the selection with an error; every plugin of the catalog
    /// is asked about, in order; one that the operator accepts is
    /// downloaded, and counts as installed when the download succeeded; a
    /// download that failed is reported and the selection goes on with the
    /// next plugin. An answer that does not fit the stage changes nothing.
    pub open spec fn step(self, answer: SelectionAnswerView) -> SelectionView {
        match (self.stage, answer) {
            (SelectionStage::Listing, SelectionAnswerView::Catalog(plugins)) => SelectionView {
                plugins,
                ..self
            }.turned_to(0),
            (SelectionStage::Listing, SelectionAnswerView::CatalogFailed(m)) => SelectionView {
                stage: SelectionStage::Ended {
                    failure: Some(InstallerErrorView::ReqwestError(m)),
                },
                ..self
            },
            (SelectionStage::Asking, SelectionAnswerView::Line(line)) => if is_yes(line) {
                SelectionView { stage: SelectionStage::Announcing, ..self }
            } else {
                self.turned_to(self.at + 1)
            },
            (SelectionStage::Announcing, SelectionAnswerView::Said) => SelectionView {
                stage: SelectionStage::Downloading,
                ..self
            },
            (SelectionStage::Downloading, SelectionAnswerView::Downloaded) => SelectionView {
                installed: self.installed.push(self.present()),
                stage: SelectionStage::Reporting { line: success_line(self.present().name) },
                ..self
            },
            (SelectionStage::Downloading, SelectionAnswerView::DownloadFailed(e)) => SelectionView {
                stage: SelectionStage::Reporting { line: failure_line(self.present().name, e) },
                ..self
            },
            (SelectionStage::Reporting { line }, SelectionAnswerView::Said) => self.turned_to(
                self.at + 1,
            ),
            _ => self,
        }
    }
}

/// A selection in progress.
#[derive(Debug)]
pub struct Selection {
    path: String,
    plugins: Vec<Plugin>,
    at: usize,
    installed: Vec<Plugin>,
    stage: Progress,
}

impl Progress {
    spec fn as_stage(self) -> SelectionStage {
        match self {
            Progress::Listing => SelectionStage::Listing,
            Progress::Asking => SelectionStage::Asking,
            Progress::Announcing => SelectionStage::Announcing,
            Progress::Downloading => SelectionStage::Downloading,
            Progress::Reporting { line } => SelectionStage::Reporting { line: line@ },
            Progress::Ended { failure } => SelectionStage::Ended { failure: failure.deep_view() },
        }
    }
}

impl View for Selection {
    type V = SelectionView;

    closed spec fn view(&self) -> SelectionView {
        SelectionView {
            path: self.path@,
            plugins: self.plugins.deep_view(),
            at: self.at as nat,
            installed: self.installed.deep_view(),
            stage: self.stage.as_stage(),
        }
    }
}

impl Installer {
    /// The selection of plugins for this installer's game directory, before
    /// anything was done.
    pub fn download_plugins(&self) -> (out: Selection)
        ensures
            out@ == SelectionView::start(self@),
    {
        let plugins: Vec<Plugin> = Vec::new();
        let installed: Vec<Plugin> = Vec::new();
        assert(plugins.deep_view() =~= Seq::<PluginView>::empty());
        assert(installed.deep_view() =~= Seq::<PluginView>::empty());
        Selection { path: self.path(), plugins, at: 0, installed, stage: Progress::Listing }
    }
}

impl Selection {
    #[verifier::type_invariant]
    spec fn inv(self) -> bool {
        match self.stage {
            Progress::Listing => true,
            Progress::Ended { failure } => true,
            _ => self.at < self.plugins.len(),
        }
    }

    /// The selection turned to the plugin at position `at`.
    fn turned_to(path: String, plugins: Vec<Plugin>, at: usize, installed: Vec<Plugin>) -> (out:
        Selection)
        ensures
            out@ == (SelectionView {
                path: path@,
                plugins: plugins.deep_view(),
                at: 0,
                installed: installed.deep_view(),
                stage: SelectionStage::Listing,
            }).turned_to(at as nat),
    {
        if at < plugins.len() {
            Selection { path, plugins, at, installed, stage: Progress::Asking }
        } else {
            Selection { path, plugins, at, installed, stage: Progress::Ended { failure: None } }
        }
    }

    /// What the selection needs next.
    pub fn next(&self) -> (out: SelectionRequest)
        ensures
            out@ == self@.request(),
            self@.wf(),
    {
        proof {
            use_type_invariant(self);
        }
        match &self.stage {
            Progress::Listing => SelectionRequest::ListPlugins,
            Progress::Asking => {
                let name = self.plugins[self.at].name.as_str();
                let head = glue("Do you want to install ", name);
                SelectionRequest::Ask { line: glue(head.as_str(), "? (Y/N)") }
            },
            Progress::Announcing => {
                let name = self.plugins[self.at].name.as_str();
                let head = glue("Downloading ", name);
                SelectionRequest::Say { line: glue(head.as_str(), "...") }
            },
            Progress::Downloading => SelectionRequest::Download {
                plugin: copy_plugin(&self.plugins[self.at]),
                path: self.path.clone(),
            },
            Progress::Reporting { line } => SelectionRequest::Say { line: line.clone() },
            Progress::Ended { failure } => match failure {
                None => SelectionRequest::Done(Ok(copy_plugins(&self.installed))),
                Some(e) => SelectionRequest::Done(Err(copy_installer_error(e))),
            },
        }
    }

    /// The selection after it was given `answer`.
    pub fn step(self, answer: SelectionAnswer) -> (out: Selection)
        ensures
            out@ == self@.step(answer@),
            out@.wf(),
    {
        proof {
            use_type_invariant(&self);
        }
        let Selection { path, plugins, at, installed, stage } = self;
        match (stage, answer) {
            (Progress::Listing, SelectionAnswer::Catalog(found)) => Self::turned_to(
                path,
                found,
                0,
                installed,
            ),
            (Progress::Listing, SelectionAnswer::CatalogFailed(m)) => Selection {
                path,
                plugins,
                at,
                installed,
                stage: Progress::Ended { failure: Some(InstallerError::ReqwestError(m)) },
            },
            (Progress::Asking, SelectionAnswer::Line(line)) => {
                if confirms(line.as_str()) {
                    Selection { path, plugins, at, installed, stage: Progress::Announcing }
                } else {
                    Self::turned_to(path, plugins, at + 1, installed)
                }
            },
            (Progress::Announcing, SelectionAnswer::Said) => Selection {
                path,
                plugins,
                at,
                installed,
                stage: Progress::Downloading,
            },
            (Progress::Downloading, SelectionAnswer::Downloaded) => {
                let mut installed = installed;
                let ghost before = installed.deep_view();
                let line = glue(plugins[at].name.as_str(), " downloaded successfully!");
                installed.push(copy_plugin(&plugins[at]));
                assert(installed.deep_view() =~= before.push(plugins[at as int]@));
                Selection { path, plugins, at, installed, stage: Progress::Reporting { line } }
            },
            (Progress::Downloading, SelectionAnswer::DownloadFailed(e)) => {
                let head = glue("Error downloading ", plugins[at].name.as_str());
                let head = glue(head.as_str(), ": ");
                let line = glue(head.as_str(), e.message().as_str());
                Selection { path, plugins, at, installed, stage: Progress::Reporting { line } }
            },
            (Progress::Reporting { line }, SelectionAnswer::Said) => Self::turned_to(
                path,
                plugins,
                at + 1,
                installed,
            ),
            (stage, _) => Selection { path, plugins, at, installed, stage },
        }
    }
}

/// A download that failed does not end the selection: the failure is
/// reported, the plugin does not count as installed, and the selection
/// turns to the plugin after it.
pub proof fn law_failed_download_does_not_end_selection(s: SelectionView, error: PluginErrorView)
    requires
        s.wf(),
        s.stage is Downloading,
    ensures
        s.step(SelectionAnswerView::DownloadFailed(error)).request() == (SelectionRequestView::Say {
            line: failure_line(s.present().name, error),
        }),
        s.step(SelectionAnswerView::DownloadFailed(error)).step(SelectionAnswerView::Said)
            == s.turned_to(s.at + 1),
        s.turned_to(s.at + 1).installed == s.installed,
        s.at + 1 < s.plugins.len() ==> s.turned_to(s.at + 1).request()
            == (SelectionRequestView::Ask {
            line: question(s.plugins[s.at as int + 1].name),
        }),
{
}

/// A plugin that the operator does not accept is neither announced nor
/// downloaded: the selection turns to the plugin after it.
pub proof fn law_declined_plugin_is_passed_over(s: SelectionView, line: Seq<char>)
    requires
        s.wf(),
        s.stage is Asking,
        !is_yes(line),
    ensures
        s.step(SelectionAnswerView::Line(line)) == s.turned_to(s.at + 1),
        s.step(SelectionAnswerView::Line(line)).installed == s.installed,
{
}

/// The operator and the network as a selection meets them.
pub struct World {
    /// The plugins of the catalog, or why it could not be had.
    pub catalog: Result<Seq<PluginView>, Seq<char>>,
    /// What the operator replies when asked about the plugin at each
    /// position of the catalog.
    pub replies: Seq<Seq<char>>,
    /// Why the download of the plugin at each position fails, if it does.
    pub failures: Seq<Option<PluginErrorView>>,
}

impl World {
    /// The answer that this world gives to what `s` needs next.
    pub open spec fn answer(self, s: SelectionView) -> SelectionAnswerView {
        match s.stage {
            SelectionStage::Listing => match self.catalog {
                Ok(plugins) => SelectionAnswerView::Catalog(plugins),
                Err(reason) => SelectionAnswerView::CatalogFailed(reason),
            },
            SelectionStage::Asking => SelectionAnswerView::Line(self.replies[s.at as int]),
            SelectionStage::Downloading => match self.failures[s.at as int] {
                None => SelectionAnswerView::Downloaded,
                Some(error) => SelectionAnswerView::DownloadFailed(error),
            },
            _ => SelectionAnswerView::Said,
        }
    }

    /// Whether the plugin at position `at` is accepted by the operator and
    /// downloaded without failure.
    pub open spec fn installs(self, at: int) -> bool {
        is_yes(self.replies[at]) && self.failures[at] is None
    }

    /// Those of `plugins`, from position `from` on, that are accepted and
    /// downloaded without failure, in the order of the catalog.
    pub open spec fn accepted(self, plugins: Seq<PluginView>, from: nat) -> Seq<PluginView>
        decreases plugins.len() - from,
    {
        if from >= plugins.len() {
            Seq::empty()
        } else if self.installs(from as int) {
            seq![plugins[from as int]] + self.accepted(plugins, from + 1)
        } else {
            self.accepted(plugins, from + 1)
        }
    }

    /// The plugins that `s` will yet install in this world.
    pub open spec fn pending(self, s: SelectionView) -> Seq<PluginView> {
        match s.stage {
            SelectionStage::Listing => Seq::empty(),
            SelectionStage::Asking => self.accepted(s.plugins, s.at),
            SelectionStage::Announcing | SelectionStage::Downloading => if self.failures[s.at as int] is None {
                seq![s.present()] + self.accepted(s.plugins, s.at + 1)
            } else {
                self.accepted(s.plugins, s.at + 1)
            },
            SelectionStage::Reporting { line } => self.accepted(s.plugins, s.at + 1),
            SelectionStage::Ended { failure } => Seq::empty(),
        }
    }
}

/// How far `s` is from its end: whether the catalog is still to be had, how
/// many plugins are still to be dealt with, and how much is left to do for
/// the present one.
pub open spec fn rank(stage: SelectionStage) -> int {
    match stage {
        SelectionStage::Listing => 5,
        SelectionStage::Asking => 4,
        SelectionStage::Announcing => 3,
        SelectionStage::Downloading => 2,
        SelectionStage::Reporting { line } => 1,
        SelectionStage::Ended { failure } => 0,
    }
}

/// The selection `s` at its end, every request answered by `world`.
pub open spec fn run(world: World, s: SelectionView) -> SelectionView
    decreases
            (if s.stage is Listing {
                1int
            } else {
                0int
            }),
            s.plugins.len() - s.at,
            rank(s.stage),
    when s.wf()
{
    if s.stage is Ended {
        s
    } else {
        run(world, s.step(world.answer(s)))
    }
}

/// A selection that is served by a world ends with the plugins it had
/// installed and those it was yet to install, in that order, unless it ends
/// with an error.
proof fn lemma_run(world: World, s: SelectionView)
    requires
        s.wf(),
        !(s.stage is Listing),
    ensures
        run(world, s).stage is Ended,
        run(world, s).installed == s.installed + world.pending(s),
        s.stage is Ended ==> run(world, s) == s,
        !(s.stage is Ended) ==> run(world, s).stage == (SelectionStage::Ended { failure: None }),
    decreases s.plugins.len() - s.at, rank(s.stage),
{
    if s.stage is Ended {
        assert(s.installed + world.pending(s) =~= s.installed);
    } else {
        let t = s.step(world.answer(s));
        lemma_run(world, t);
        assert(run(world, s) == run(world, t));
        if s.at + 1 >= s.plugins.len() {
            assert(world.accepted(s.plugins, s.at + 1) =~= Seq::<PluginView>::empty());
        }
        assert(t.installed + world.pending(t) =~= s.installed + world.pending(s));
    }
}

/// A selection that is served by a world, from its start to its end,
/// installs exactly the plugins of the catalog that the operator accepts and
/// whose download does not fail, in the order of the catalog; a download
/// that fails costs only its own plugin. When the catalog cannot be had,
/// the selection ends with that error and installs nothing.
pub proof fn law_selection_installs_what_is_accepted(world: World, path: Seq<char>)
    ensures
        run(world, SelectionView::start(path)).request() == match world.catalog {
            Ok(plugins) => SelectionRequestView::Done(Ok(world.accepted(plugins, 0))),
            Err(reason) => SelectionRequestView::Done(
                Err(InstallerErrorView::ReqwestError(reason)),
            ),
        },
{
    let s = SelectionView::start(path);
    let t = s.step(world.answer(s));
    assert(run(world, s) == run(world, t));
    match world.catalog {
        Ok(plugins) => {
            lemma_run(world, t);
            assert(t.installed + world.pending(t) =~= world.accepted(plugins, 0));
        },
        Err(reason) => {
            lemma_run(world, t);
        },
    }
}

} // verus!
