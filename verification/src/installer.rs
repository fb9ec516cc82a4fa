//! Installing the runtime and the plugins into a game directory: whether the
//! runtime is there already, and the order of the work.

use vstd::prelude::*;
use crate::paths::{join, joined, Platform};
use crate::plugin::{copy_plugins, Plugin, PluginView};
use crate::text::{chars_of, copy_of, glue, string_of};

verus! {

/// The installer for one game directory.
pub struct Installer {
    path: String,
}

impl View for Installer {
    type V = Seq<char>;

    /// An installer is known by the game directory it works on.
    closed spec fn view(&self) -> Seq<char> {
        self.path@
    }
}

/// Why an installation failed. The three first kinds carry the text of the
/// failure as the file system, the archive reader or the transport gave it;
/// the last carries a reason of the installer's own.
#[derive(Debug)]
pub enum InstallerError {
    IoError(String),
    ZipError(String),
    ReqwestError(String),
    InstallError(String),
}

/// An installer error as plain text.
pub enum InstallerErrorView {
    IoError(Seq<char>),
    ZipError(Seq<char>),
    ReqwestError(Seq<char>),
    InstallError(Seq<char>),
}

impl View for InstallerError {
    type V = InstallerErrorView;

    open spec fn view(&self) -> InstallerErrorView {
        match self {
            InstallerError::IoError(m) => InstallerErrorView::IoError(m@),
            InstallerError::ZipError(m) => InstallerErrorView::ZipError(m@),
            InstallerError::ReqwestError(m) => InstallerErrorView::ReqwestError(m@),
            InstallerError::InstallError(m) => InstallerErrorView::InstallError(m@),
        }
    }
}

impl DeepView for InstallerError {
    type V = InstallerErrorView;

    open spec fn deep_view(&self) -> InstallerErrorView {
        self@
    }
}

impl InstallerErrorView {
    /// The error in words.
    pub open spec fn text(self) -> Seq<char> {
        match self {
            InstallerErrorView::IoError(m) => "IO Error: "@ + m,
            InstallerErrorView::ZipError(m) => "Zip Error: "@ + m,
            InstallerErrorView::ReqwestError(m) => "Reqwest Error: "@ + m,
            InstallerErrorView::InstallError(m) => "Install Error: "@ + m,
        }
    }
}

impl InstallerError {
    /// The error in words.
    pub fn message(&self) -> (out: String)
        ensures
            out@ == self@.text(),
    {
        match self {
            InstallerError::IoError(m) => glue("IO Error: ", m.as_str()),
            InstallerError::ZipError(m) => glue("Zip Error: ", m.as_str()),
            InstallerError::ReqwestError(m) => glue("Reqwest Error: ", m.as_str()),
            InstallerError::InstallError(m) => glue("Install Error: ", m.as_str()),
        }
    }
}

/// What an installation did: the plugins it installed, and whether it had to
/// install the runtime (`None` when the runtime was there already).
#[derive(Debug)]
pub struct InstallResult {
    pub plugins: Option<Vec<Plugin>>,
    pub installed_bepinex: Option<bool>,
}

/// An installation's result as plain text.
pub struct InstallResultView {
    pub plugins: Option<Seq<PluginView>>,
    pub installed_bepinex: Option<bool>,
}

impl View for InstallResult {
    type V = InstallResultView;

    open spec fn view(&self) -> InstallResultView {
        InstallResultView {
            plugins: self.plugins.deep_view(),
            installed_bepinex: self.installed_bepinex,
        }
    }
}

/// The directories by which the runtime is recognised.
#[derive(Debug)]
pub struct RuntimeDirs {
    /// The runtime's own directory.
    pub root: String,
    pub core: String,
    pub plugins: String,
    pub config: String,
    /// The directory that the runtime makes when the game first runs with it.
    pub interop: String,
}

/// Which of the runtime's directories exist.
#[derive(Debug, Clone, Copy)]
pub struct Presence {
    pub root: bool,
    pub core: bool,
    pub plugins: bool,
    pub config: bool,
    pub interop: bool,
}

/// The runtime's own directory in the game directory `path`.
pub open spec fn runtime_root(platform: Platform, path: Seq<char>) -> Seq<char> {
    joined(platform, path, "BepInEx"@)
}

/// The runtime is installed when its own directory and, in it, `core`,
/// `plugins` and `config` all exist.
pub open spec fn installed(found: Presence) -> bool {
    found.root && found.core && found.plugins && found.config
}

/// The runtime has run when its own directory and, in it, `interop` exist.
pub open spec fn ran(found: Presence) -> bool {
    found.root && found.interop
}

impl Installer {
    /// The installer for the game directory `path`.
    pub fn new(path: &str) -> (out: Installer)
        ensures
            out@ == path@,
    {
        Installer { path: copy_of(path) }
    }

    /// The game directory.
    pub fn path(&self) -> (out: String)
        ensures
            out@ == self@,
    {
        self.path.clone()
    }

    /// The directories to look for.
    pub fn runtime_dirs(&self, platform: Platform) -> (out: RuntimeDirs)
        ensures
            out.root@ == runtime_root(platform, self@),
            out.core@ == joined(platform, runtime_root(platform, self@), "core"@),
            out.plugins@ == joined(platform, runtime_root(platform, self@), "plugins"@),
            out.config@ == joined(platform, runtime_root(platform, self@), "config"@),
            out.interop@ == joined(platform, runtime_root(platform, self@), "interop"@),
    {
        let root = join(platform, &chars_of(self.path.as_str()), &chars_of("BepInEx"));
        RuntimeDirs {
            core: string_of(&join(platform, &root, &chars_of("core"))),
            plugins: string_of(&join(platform, &root, &chars_of("plugins"))),
            config: string_of(&join(platform, &root, &chars_of("config"))),
            interop: string_of(&join(platform, &root, &chars_of("interop"))),
            root: string_of(&root),
        }
    }

    /// Whether the runtime is installed, given which of its directories
    /// exist.
    pub fn is_installed(&self, found: &Presence) -> (yes: bool)
        ensures
            yes == installed(*found),
    {
        found.root && found.core && found.plugins && found.config
    }

    /// Whether the game has run with the runtime, given which of the
    /// runtime's directories exist.
    pub fn has_ran(&self, found: &Presence) -> (yes: bool)
        ensures
            yes == ran(*found),
    {
        found.root && found.interop
    }
}

/// A copy of `e`.
pub fn copy_installer_error(e: &InstallerError) -> (out: InstallerError)
    ensures
        out@ == e@,
{
    match e {
        InstallerError::IoError(m) => InstallerError::IoError(m.clone()),
        InstallerError::ZipError(m) => InstallerError::ZipError(m.clone()),
        InstallerError::ReqwestError(m) => InstallerError::ReqwestError(m.clone()),
        InstallerError::InstallError(m) => InstallerError::InstallError(m.clone()),
    }
}

/// The runtime's directories as plain text.
pub struct RuntimeDirsView {
    pub root: Seq<char>,
    pub core: Seq<char>,
    pub plugins: Seq<char>,
    pub config: Seq<char>,
    pub interop: Seq<char>,
}

impl View for RuntimeDirs {
    type V = RuntimeDirsView;

    open spec fn view(&self) -> RuntimeDirsView {
        RuntimeDirsView {
            root: self.root@,
            core: self.core@,
            plugins: self.plugins@,
            config: self.config@,
            interop: self.interop@,
        }
    }
}

/// The directories by which the runtime is recognised in the game
/// directory `path`.
pub open spec fn runtime_dirs(platform: Platform, path: Seq<char>) -> RuntimeDirsView {
    let root = runtime_root(platform, path);
    RuntimeDirsView {
        root,
        core: joined(platform, root, "core"@),
        plugins: joined(platform, root, "plugins"@),
        config: joined(platform, root, "config"@),
        interop: joined(platform, root, "interop"@),
    }
}

/// What an installation needs next.
#[derive(Debug)]
pub enum InstallRequest {
    /// Which of these directories exist.
    Probe(RuntimeDirs),
    /// Put the runtime into the game directory.
    Setup,
    /// Offer the plugins of the catalog and download those accepted.
    DownloadPlugins,
    /// Nothing: the installation has ended, with this result or this error.
    Done(Result<InstallResult, InstallerError>),
}

/// An installation request as plain text.
pub enum InstallRequestView {
    Probe(RuntimeDirsView),
    Setup,
    DownloadPlugins,
    Done(Result<InstallResultView, InstallerErrorView>),
}

impl View for InstallRequest {
    type V = InstallRequestView;

    open spec fn view(&self) -> InstallRequestView {
        match self {
            InstallRequest::Probe(dirs) => InstallRequestView::Probe(dirs@),
            InstallRequest::Setup => InstallRequestView::Setup,
            InstallRequest::DownloadPlugins => InstallRequestView::DownloadPlugins,
            InstallRequest::Done(Ok(result)) => InstallRequestView::Done(Ok(result@)),
            InstallRequest::Done(Err(e)) => InstallRequestView::Done(Err(e@)),
        }
    }
}

/// The outcome of an installation request.
#[derive(Debug)]
pub enum InstallAnswer {
    /// Which of the runtime's directories exist.
    Probed(Presence),
    /// The runtime was put into the game directory.
    SetupDone,
    /// The runtime could not be put into the game directory.
    SetupFailed(InstallerError),
    /// The plugins that were installed.
    Plugins(Vec<Plugin>),
    /// The plugins could not be offered.
    PluginsFailed(InstallerError),
}

/// An installation answer as plain text.
pub enum InstallAnswerView {
    Probed(Presence),
    SetupDone,
    SetupFailed(InstallerErrorView),
    Plugins(Seq<PluginView>),
    PluginsFailed(InstallerErrorView),
}

impl View for InstallAnswer {
    type V = InstallAnswerView;

    open spec fn view(&self) -> InstallAnswerView {
        match self {
            InstallAnswer::Probed(found) => InstallAnswerView::Probed(*found),
            InstallAnswer::SetupDone => InstallAnswerView::SetupDone,
            InstallAnswer::SetupFailed(e) => InstallAnswerView::SetupFailed(e@),
            InstallAnswer::Plugins(plugins) => InstallAnswerView::Plugins(plugins.deep_view()),
            InstallAnswer::PluginsFailed(e) => InstallAnswerView::PluginsFailed(e@),
        }
    }
}

/// How far an installation has come.
#[derive(Debug)]
enum Progress {
    Probing,
    SettingUp,
    Selecting { installed_bepinex: Option<bool> },
    Ended { outcome: Result<InstallResult, InstallerError> },
}

/// How far an installation has come, as plain text.
pub enum InstallStage {
    /// The runtime's directories are looked for.
    Probing,
    /// The runtime is put into the game directory.
    SettingUp,
    /// The plugins are offered; `installed_bepinex` says whether the runtime
    /// had to be installed first.
    Selecting { installed_bepinex: Option<bool> },
    /// The installation has ended.
    Ended { outcome: Result<InstallResultView, InstallerErrorView> },
}

/// The state of an installation as plain text.
pub struct InstallView {
    pub platform: Platform,
    /// The game directory.
    pub path: Seq<char>,
    pub stage: InstallStage,
}

impl InstallView {
    /// The installation into the game directory `path` before anything was
    /// done.
    pub open spec fn start(platform: Platform, path: Seq<char>) -> InstallView {
        InstallView { platform, path, stage: InstallStage::Probing }
    }

    /// The installation at `stage`.
    pub open spec fn at(self, stage: InstallStage) -> InstallView {
        InstallView { stage, ..self }
    }

    /// What the installation needs next.
    pub open spec fn request(self) -> InstallRequestView {
        match self.stage {
            InstallStage::Probing => InstallRequestView::Probe(
                runtime_dirs(self.platform, self.path),
            ),
            InstallStage::SettingUp => InstallRequestView::Setup,
            InstallStage::Selecting { installed_bepinex } => InstallRequestView::DownloadPlugins,
            InstallStage::Ended { outcome } => InstallRequestView::Done(outcome),
        }
    }

    /// The installation after it was given `answer`. A runtime that is
    /// installed is not set up again; a setup that failed ends the
    /// installation, and so does a selection of plugins that failed; the
    /// result names the plugins installed and says whether the runtime had
    /// to be installed. An answer that does not fit the stage changes
    /// nothing.
    pub open spec fn step(self, answer: InstallAnswerView) -> InstallView {
        match (self.stage, answer) {
            (InstallStage::Probing, InstallAnswerView::Probed(found)) => if installed(found) {
                self.at(InstallStage::Selecting { installed_bepinex: None })
            } else {
                self.at(InstallStage::SettingUp)
            },
            (InstallStage::SettingUp, InstallAnswerView::SetupDone) => self.at(
                InstallStage::Selecting { installed_bepinex: Some(true) },
            ),
            (InstallStage::SettingUp, InstallAnswerView::SetupFailed(e)) => self.at(
                InstallStage::Ended { outcome: Err(e) },
            ),
            (
                InstallStage::Selecting { installed_bepinex },
                InstallAnswerView::Plugins(plugins),
            ) => self.at(
                InstallStage::Ended {
                    outcome: Ok(InstallResultView { plugins: Some(plugins), installed_bepinex }),
                },
            ),
            (
                InstallStage::Selecting { installed_bepinex },
                InstallAnswerView::PluginsFailed(e),
            ) => self.at(InstallStage::Ended { outcome: Err(e) }),
            _ => self,
        }
    }
}

/// An installation in progress.
#[derive(Debug)]
pub struct Install {
    platform: Platform,
    path: String,
    stage: Progress,
}

impl Progress {
    spec fn as_stage(self) -> InstallStage {
        match self {
            Progress::Probing => InstallStage::Probing,
            Progress::SettingUp => InstallStage::SettingUp,
            Progress::Selecting { installed_bepinex } => InstallStage::Selecting {
                installed_bepinex,
            },
            Progress::Ended { outcome: Ok(result) } => InstallStage::Ended {
                outcome: Ok(result@),
            },
            Progress::Ended { outcome: Err(e) } => InstallStage::Ended { outcome: Err(e@) },
        }
    }
}

impl View for Install {
    type V = InstallView;

    closed spec fn view(&self) -> InstallView {
        InstallView { platform: self.platform, path: self.path@, stage: self.stage.as_stage() }
    }
}

impl Installer {
    /// The installation into this installer's game directory, before
    /// anything was done.
    pub fn install(&self, platform: Platform) -> (out: Install)
        ensures
            out@ == InstallView::start(platform, self@),
    {
        Install { platform, path: self.path(), stage: Progress::Probing }
    }
}

impl Install {
    /// What the installation needs next.
    pub fn next(&self) -> (out: InstallRequest)
        ensures
            out@ == self@.request(),
    {
        match &self.stage {
            Progress::Probing => {
                let installer = Installer::new(self.path.as_str());
                InstallRequest::Probe(installer.runtime_dirs(self.platform))
            },
            Progress::SettingUp => InstallRequest::Setup,
            Progress::Selecting { installed_bepinex } => InstallRequest::DownloadPlugins,
            Progress::Ended { outcome } => match outcome {
                Ok(result) => {
                    let plugins = match &result.plugins {
                        Some(list) => Some(copy_plugins(list)),
                        None => None,
                    };
                    InstallRequest::Done(
                        Ok(InstallResult { plugins, installed_bepinex: result.installed_bepinex }),
                    )
                },
                Err(e) => InstallRequest::Done(Err(copy_installer_error(e))),
            },
        }
    }

    /// The installation after it was given `answer`.
    pub fn step(self, answer: InstallAnswer) -> (out: Install)
        ensures
            out@ == self@.step(answer@),
    {
        let Install { platform, path, stage } = self;
        let next = match (stage, answer) {
            (Progress::Probing, InstallAnswer::Probed(found)) => {
                if found.root && found.core && found.plugins && found.config {
                    Progress::Selecting { installed_bepinex: None }
                } else {
                    Progress::SettingUp
                }
            },
            (Progress::SettingUp, InstallAnswer::SetupDone) => Progress::Selecting {
                installed_bepinex: Some(true),
            },
            (Progress::SettingUp, InstallAnswer::SetupFailed(e)) => Progress::Ended {
                outcome: Err(e),
            },
            (Progress::Selecting { installed_bepinex }, InstallAnswer::Plugins(plugins)) => {
                Progress::Ended {
                    outcome: Ok(InstallResult { plugins: Some(plugins), installed_bepinex }),
                }
            },
            (Progress::Selecting { installed_bepinex }, InstallAnswer::PluginsFailed(e)) => {
                Progress::Ended { outcome: Err(e) }
            },
            (stage, _) => stage,
        };
        Install { platform, path, stage: next }
    }
}

/// When the runtime's four directories exist, the runtime is not set up
/// again, and so nothing of it is downloaded: the installation goes straight
/// to the plugins, and its result will not say that the runtime was
/// installed.
pub proof fn law_installed_runtime_is_not_set_up(s: InstallView, found: Presence)
    requires
        s.stage is Probing,
        found.root && found.core && found.plugins && found.config,
    ensures
        s.step(InstallAnswerView::Probed(found)).request() == InstallRequestView::DownloadPlugins,
        s.step(InstallAnswerView::Probed(found)).stage == (InstallStage::Selecting {
            installed_bepinex: None,
        }),
{
}

/// Once the installation has turned to the plugins, it never turns back to
/// the runtime: whatever it is told, it does not ask for a setup again.
pub proof fn law_no_setup_behind_plugins(s: InstallView, answer: InstallAnswerView)
    requires
        s.stage is Selecting || s.stage is Ended,
    ensures
        s.step(answer).stage is Selecting || s.step(answer).stage is Ended,
        s.step(answer).request() != InstallRequestView::Setup,
{
}

/// When one of the runtime's four directories is missing, the runtime is set
/// up before anything else.
pub proof fn law_missing_runtime_is_set_up(s: InstallView, found: Presence)
    requires
        s.stage is Probing,
        !(found.root && found.core && found.plugins && found.config),
    ensures
        s.step(InstallAnswerView::Probed(found)).request() == InstallRequestView::Setup,
{
}

} // verus!
