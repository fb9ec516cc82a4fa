//! One plugin: choosing the file to download from the releases of its
//! repository, and the steps that put that file into the runtime's plugin
//! directory.

use vstd::prelude::*;
use crate::config::{RATE_LIMITED, RATE_LIMIT_NOTICE, USER_AGENT};
use crate::text::{chars_of, copy_of, ends_with, finishes_with, glue};

verus! {

/// A plugin that can be installed.
#[derive(Debug)]
pub struct Plugin {
    pub name: String,
    /// The address of the plugin's repository in the catalog's interface.
    pub url: String,
    /// The address of the repository's page.
    pub repo: String,
    pub description: String,
}

/// A plugin as plain text.
pub struct PluginView {
    pub name: Seq<char>,
    pub url: Seq<char>,
    pub repo: Seq<char>,
    pub description: Seq<char>,
}

impl View for Plugin {
    type V = PluginView;

    open spec fn view(&self) -> PluginView {
        PluginView {
            name: self.name@,
            url: self.url@,
            repo: self.repo@,
            description: self.description@,
        }
    }
}

impl DeepView for Plugin {
    type V = PluginView;

    open spec fn deep_view(&self) -> PluginView {
        self@
    }
}

/// A file attached to a release.
#[derive(Debug)]
pub struct Asset {
    pub name: String,
    pub browser_download_url: String,
}

/// An asset as plain text.
pub struct AssetView {
    pub name: Seq<char>,
    pub browser_download_url: Seq<char>,
}

impl View for Asset {
    type V = AssetView;

    open spec fn view(&self) -> AssetView {
        AssetView { name: self.name@, browser_download_url: self.browser_download_url@ }
    }
}

impl DeepView for Asset {
    type V = AssetView;

    open spec fn deep_view(&self) -> AssetView {
        self@
    }
}

/// A release of a repository, with the files attached to it.
#[derive(Debug)]
pub struct Release {
    pub assets: Vec<Asset>,
}

/// A release as plain text.
pub struct ReleaseView {
    pub assets: Seq<AssetView>,
}

impl View for Release {
    type V = ReleaseView;

    open spec fn view(&self) -> ReleaseView {
        ReleaseView { assets: self.assets.deep_view() }
    }
}

impl DeepView for Release {
    type V = ReleaseView;

    open spec fn deep_view(&self) -> ReleaseView {
        self@
    }
}

/// Why a plugin was not installed. The four first kinds carry the text of
/// the failure as the transport, the decoder, the archive reader or the file
/// system gave it; the last carries a reason of the installer's own.
#[derive(Debug)]
pub enum PluginError {
    ReqwestError(String),
    SerdeError(String),
    ZipError(String),
    IoError(String),
    PluginError(String),
}

/// A plugin error as plain text.
pub enum PluginErrorView {
    ReqwestError(Seq<char>),
    SerdeError(Seq<char>),
    ZipError(Seq<char>),
    IoError(Seq<char>),
    PluginError(Seq<char>),
}

impl View for PluginError {
    type V = PluginErrorView;

    open spec fn view(&self) -> PluginErrorView {
        match self {
            PluginError::ReqwestError(m) => PluginErrorView::ReqwestError(m@),
            PluginError::SerdeError(m) => PluginErrorView::SerdeError(m@),
            PluginError::ZipError(m) => PluginErrorView::ZipError(m@),
            PluginError::IoError(m) => PluginErrorView::IoError(m@),
            PluginError::PluginError(m) => PluginErrorView::PluginError(m@),
        }
    }
}

impl DeepView for PluginError {
    type V = PluginErrorView;

    open spec fn deep_view(&self) -> PluginErrorView {
        self@
    }
}

impl PluginErrorView {
    /// The error in words.
    pub open spec fn text(self) -> Seq<char> {
        match self {
            PluginErrorView::ReqwestError(m) => "Reqwest Error: "@ + m,
            PluginErrorView::SerdeError(m) => "Serde Error: "@ + m,
            PluginErrorView::ZipError(m) => "Zip Error: "@ + m,
            PluginErrorView::IoError(m) => "IO Error: "@ + m,
            PluginErrorView::PluginError(m) => "Plugin Error: "@ + m,
        }
    }
}

impl PluginError {
    /// The error in words.
    pub fn message(&self) -> (out: String)
        ensures
            out@ == self@.text(),
    {
        match self {
            PluginError::ReqwestError(m) => glue("Reqwest Error: ", m.as_str()),
            PluginError::SerdeError(m) => glue("Serde Error: ", m.as_str()),
            PluginError::ZipError(m) => glue("Zip Error: ", m.as_str()),
            PluginError::IoError(m) => glue("IO Error: ", m.as_str()),
            PluginError::PluginError(m) => glue("Plugin Error: ", m.as_str()),
        }
    }
}

/// A result as plain text: what it holds, viewed.
pub open spec fn result_view<T: View, E: View>(r: Result<T, E>) -> Result<T::V, E::V> {
    match r {
        Ok(t) => Ok(t@),
        Err(e) => Err(e@),
    }
}

/// Whether a file of this name is an archive to unpack.
pub open spec fn is_archive(name: Seq<char>) -> bool {
    finishes_with(name, ".zip"@)
}

/// Whether a file of this name can be installed: a library, or an archive.
pub open spec fn is_supported(name: Seq<char>) -> bool {
    finishes_with(name, ".dll"@) || is_archive(name)
}

/// The asset to install from `releases`: the first asset of the first
/// release. It is an error when there is no release, when the first release
/// has no asset, and when that asset is neither a library nor an archive.
pub open spec fn chosen_asset(releases: Seq<ReleaseView>) -> Result<AssetView, PluginErrorView> {
    if releases.len() == 0 {
        Err(PluginErrorView::PluginError("No release found"@))
    } else if releases[0].assets.len() == 0 {
        Err(PluginErrorView::PluginError("No asset found"@))
    } else if !is_supported(releases[0].assets[0].name) {
        Err(PluginErrorView::PluginError("Asset is not a dll or zip file"@))
    } else {
        Ok(releases[0].assets[0])
    }
}

/// The directory below the game directory `root` that holds the plugins.
pub open spec fn plugin_dir(root: Seq<char>) -> Seq<char> {
    root + "/bepinex/plugins"@
}

/// The address of the releases of the repository at `url`.
pub open spec fn releases_url(url: Seq<char>) -> Seq<char> {
    url + "/releases"@
}

/// The file `name` in the directory `dir`.
pub open spec fn file_in(dir: Seq<char>, name: Seq<char>) -> Seq<char> {
    dir + "/"@ + name
}

/// What a download needs next.
#[derive(Debug)]
pub enum DownloadRequest {
    /// Ask for the list of releases at `url`.
    FetchReleases { url: String, user_agent: String },
    /// Read the body of the response and decode it as a list of releases.
    ReadReleases,
    /// Print `line`.
    Say { line: String },
    /// Ask for the asset at `url`.
    FetchAsset { url: String, user_agent: String },
    /// Whether `path` exists.
    Exists { path: String },
    /// Create the directory `path` and those above it.
    CreateDirAll { path: String },
    /// Write the body of the asset's response to the file `path`.
    SaveAsset { path: String },
    /// Unpack the archive `archive` into the directory `into`.
    Extract { archive: String, into: String },
    /// Delete the file `path`.
    RemoveFile { path: String },
    /// Nothing: the download has ended, well or with this error.
    Done(Result<(), PluginError>),
}

/// A download request as plain text.
pub enum DownloadRequestView {
    FetchReleases { url: Seq<char>, user_agent: Seq<char> },
    ReadReleases,
    Say { line: Seq<char> },
    FetchAsset { url: Seq<char>, user_agent: Seq<char> },
    Exists { path: Seq<char> },
    CreateDirAll { path: Seq<char> },
    SaveAsset { path: Seq<char> },
    Extract { archive: Seq<char>, into: Seq<char> },
    RemoveFile { path: Seq<char> },
    Done(Result<(), PluginErrorView>),
}

impl View for DownloadRequest {
    type V = DownloadRequestView;

    open spec fn view(&self) -> DownloadRequestView {
        match self {
            DownloadRequest::FetchReleases { url, user_agent } => DownloadRequestView::FetchReleases {
                url: url@,
                user_agent: user_agent@,
            },
            DownloadRequest::ReadReleases => DownloadRequestView::ReadReleases,
            DownloadRequest::Say { line } => DownloadRequestView::Say { line: line@ },
            DownloadRequest::FetchAsset { url, user_agent } => DownloadRequestView::FetchAsset {
                url: url@,
                user_agent: user_agent@,
            },
            DownloadRequest::Exists { path } => DownloadRequestView::Exists { path: path@ },
            DownloadRequest::CreateDirAll { path } => DownloadRequestView::CreateDirAll {
                path: path@,
            },
            DownloadRequest::SaveAsset { path } => DownloadRequestView::SaveAsset { path: path@ },
            DownloadRequest::Extract { archive, into } => DownloadRequestView::Extract {
                archive: archive@,
                into: into@,
            },
            DownloadRequest::RemoveFile { path } => DownloadRequestView::RemoveFile { path: path@ },
            DownloadRequest::Done(Ok(())) => DownloadRequestView::Done(Ok(())),
            DownloadRequest::Done(Err(e)) => DownloadRequestView::Done(Err(e@)),
        }
    }
}

/// The outcome of a download request.
#[derive(Debug)]
pub enum DownloadAnswer {
    /// The work was done.
    Succeeded,
    /// The response arrived, with this status.
    Status(u16),
    /// Whether the path exists.
    Found(bool),
    /// The line was printed.
    Said,
    /// The body is this list of releases.
    Releases(Vec<Release>),
    /// The body is not a list of releases; the text says why.
    Undecodable(String),
    /// The work failed; the text says why.
    Failed(String),
}

/// A download answer as plain text.
pub enum DownloadAnswerView {
    Succeeded,
    Status(u16),
    Found(bool),
    Said,
    Releases(Seq<ReleaseView>),
    Undecodable(Seq<char>),
    Failed(Seq<char>),
}

impl View for DownloadAnswer {
    type V = DownloadAnswerView;

    open spec fn view(&self) -> DownloadAnswerView {
        match self {
            DownloadAnswer::Succeeded => DownloadAnswerView::Succeeded,
            DownloadAnswer::Status(code) => DownloadAnswerView::Status(*code),
            DownloadAnswer::Found(yes) => DownloadAnswerView::Found(*yes),
            DownloadAnswer::Said => DownloadAnswerView::Said,
            DownloadAnswer::Releases(list) => DownloadAnswerView::Releases(list.deep_view()),
            DownloadAnswer::Undecodable(m) => DownloadAnswerView::Undecodable(m@),
            DownloadAnswer::Failed(m) => DownloadAnswerView::Failed(m@),
        }
    }
}

/// How far a download has come.
#[derive(Debug)]
pub enum DownloadStage {
    /// The list of releases was asked for.
    Asked,
    /// The operator is told that the catalog refuses the caller.
    Refused,
    /// The response is to be read.
    Reading,
    /// The operator is told that a release was found.
    Announcing { asset: Asset },
    /// The asset, chosen, was asked for.
    Fetching { asset: Asset },
    /// Whether the plugin directory exists is to be found out.
    Probing { asset: Asset },
    /// The plugin directory is to be made.
    Making { asset: Asset },
    /// The asset is to be written.
    Saving { asset: Asset },
    /// The asset, an archive, is to be unpacked.
    Unpacking { asset: Asset },
    /// The archive is to be deleted.
    Cleaning { asset: Asset },
    /// The download has ended.
    Ended { outcome: Result<(), PluginError> },
}

/// A stage as plain text.
pub enum Stage {
    /// The list of releases was asked for.
    Asked,
    /// The operator is told that the catalog refuses the caller.
    Refused,
    /// The response is to be read.
    Reading,
    /// The operator is told that a release was found.
    Announcing { asset: AssetView },
    /// The asset, chosen, was asked for.
    Fetching { asset: AssetView },
    /// Whether the plugin directory exists is to be found out.
    Probing { asset: AssetView },
    /// The plugin directory is to be made.
    Making { asset: AssetView },
    /// The asset is to be written.
    Saving { asset: AssetView },
    /// The asset, an archive, is to be unpacked.
    Unpacking { asset: AssetView },
    /// The archive is to be deleted.
    Cleaning { asset: AssetView },
    /// The download has ended.
    Ended { outcome: Result<(), PluginErrorView> },
}

impl View for DownloadStage {
    type V = Stage;

    open spec fn view(&self) -> Stage {
        match self {
            DownloadStage::Asked => Stage::Asked,
            DownloadStage::Refused => Stage::Refused,
            DownloadStage::Reading => Stage::Reading,
            DownloadStage::Announcing { asset } => Stage::Announcing { asset: asset@ },
            DownloadStage::Fetching { asset } => Stage::Fetching { asset: asset@ },
            DownloadStage::Probing { asset } => Stage::Probing { asset: asset@ },
            DownloadStage::Making { asset } => Stage::Making { asset: asset@ },
            DownloadStage::Saving { asset } => Stage::Saving { asset: asset@ },
            DownloadStage::Unpacking { asset } => Stage::Unpacking { asset: asset@ },
            DownloadStage::Cleaning { asset } => Stage::Cleaning { asset: asset@ },
            DownloadStage::Ended { outcome: Ok(()) } => Stage::Ended { outcome: Ok(()) },
            DownloadStage::Ended { outcome: Err(e) } => Stage::Ended { outcome: Err(e@) },
        }
    }
}

/// The state of a download as plain text.
pub struct DownloadView {
    /// The address of the plugin's repository in the catalog's interface.
    pub url: Seq<char>,
    /// The game directory.
    pub root: Seq<char>,
    pub stage: Stage,
}

impl DownloadView {
    /// The download of the plugin at `url` into the game directory `root`,
    /// before anything was done.
    pub open spec fn start(url: Seq<char>, root: Seq<char>) -> DownloadView {
        DownloadView { url, root, stage: Stage::Asked }
    }

    /// The download, ended with `error`.
    pub open spec fn failed(self, error: PluginErrorView) -> DownloadView {
        DownloadView { stage: Stage::Ended { outcome: Err(error) }, ..self }
    }

    /// The download at `stage`.
    pub open spec fn at(self, stage: Stage) -> DownloadView {
        DownloadView { stage, ..self }
    }

    /// What the download needs next.
    pub open spec fn request(self) -> DownloadRequestView {
        let dir = plugin_dir(self.root);
        match self.stage {
            Stage::Asked => DownloadRequestView::FetchReleases {
                url: releases_url(self.url),
                user_agent: USER_AGENT@,
            },
            Stage::Refused => DownloadRequestView::Say { line: RATE_LIMIT_NOTICE@ },
            Stage::Reading => DownloadRequestView::ReadReleases,
            Stage::Announcing { asset } => DownloadRequestView::Say { line: "Found Release"@ },
            Stage::Fetching { asset } => DownloadRequestView::FetchAsset {
                url: asset.browser_download_url,
                user_agent: USER_AGENT@,
            },
            Stage::Probing { asset } => DownloadRequestView::Exists { path: dir },
            Stage::Making { asset } => DownloadRequestView::CreateDirAll { path: dir },
            Stage::Saving { asset } => DownloadRequestView::SaveAsset {
                path: file_in(dir, asset.name),
            },
            Stage::Unpacking { asset } => DownloadRequestView::Extract {
                archive: file_in(dir, asset.name),
                into: dir,
            },
            Stage::Cleaning { asset } => DownloadRequestView::RemoveFile {
                path: file_in(dir, asset.name),
            },
            Stage::Ended { outcome } => DownloadRequestView::Done(outcome),
        }
    }

    /// The download after it was given `answer`. A failure ends it with the
    /// error of the stage that failed; a refusal for asking too often is
    /// told to the operator and ends it too; the asset is chosen, and
    /// checked, before the operator is told of it and it is asked for; the
    /// plugin directory is made unless it exists; an archive is unpacked
    /// where it was written and then deleted. An answer that does not fit
    /// the stage changes nothing.
    pub open spec fn step(self, answer: DownloadAnswerView) -> DownloadView {
        match (self.stage, answer) {
            (Stage::Asked, DownloadAnswerView::Status(code)) => if code == RATE_LIMITED {
                self.at(Stage::Refused)
            } else {
                self.at(Stage::Reading)
            },
            (Stage::Refused, DownloadAnswerView::Said) => self.failed(
                PluginErrorView::PluginError("Rate limit exceeded"@),
            ),
            (Stage::Asked, DownloadAnswerView::Failed(m)) => self.failed(
                PluginErrorView::ReqwestError(m),
            ),
            (Stage::Reading, DownloadAnswerView::Releases(list)) => match chosen_asset(list) {
                Ok(asset) => self.at(Stage::Announcing { asset }),
                Err(e) => self.failed(e),
            },
            (Stage::Announcing { asset }, DownloadAnswerView::Said) => self.at(
                Stage::Fetching { asset },
            ),
            (Stage::Reading, DownloadAnswerView::Undecodable(m)) => self.failed(
                PluginErrorView::SerdeError(m),
            ),
            (Stage::Reading, DownloadAnswerView::Failed(m)) => self.failed(
                PluginErrorView::ReqwestError(m),
            ),
            (Stage::Fetching { asset }, DownloadAnswerView::Succeeded) => self.at(
                Stage::Probing { asset },
            ),
            (Stage::Fetching { asset }, DownloadAnswerView::Failed(m)) => self.failed(
                PluginErrorView::ReqwestError(m),
            ),
            (Stage::Probing { asset }, DownloadAnswerView::Found(yes)) => if yes {
                self.at(Stage::Saving { asset })
            } else {
                self.at(Stage::Making { asset })
            },
            (Stage::Making { asset }, DownloadAnswerView::Succeeded) => self.at(
                Stage::Saving { asset },
            ),
            (Stage::Making { asset }, DownloadAnswerView::Failed(m)) => self.failed(
                PluginErrorView::IoError(m),
            ),
            (Stage::Saving { asset }, DownloadAnswerView::Succeeded) => if is_archive(asset.name) {
                self.at(Stage::Unpacking { asset })
            } else {
                self.at(Stage::Ended { outcome: Ok(()) })
            },
            (Stage::Saving { asset }, DownloadAnswerView::Failed(m)) => self.failed(
                PluginErrorView::IoError(m),
            ),
            (Stage::Unpacking { asset }, DownloadAnswerView::Succeeded) => self.at(
                Stage::Cleaning { asset },
            ),
            (Stage::Unpacking { asset }, DownloadAnswerView::Failed(m)) => self.failed(
                PluginErrorView::ZipError(m),
            ),
            (Stage::Cleaning { asset }, DownloadAnswerView::Succeeded) => self.at(
                Stage::Ended { outcome: Ok(()) },
            ),
            (Stage::Cleaning { asset }, DownloadAnswerView::Failed(m)) => self.failed(
                PluginErrorView::IoError(m),
            ),
            _ => self,
        }
    }
}

/// A download in progress.
#[derive(Debug)]
pub struct Download {
    url: String,
    root: String,
    stage: DownloadStage,
}

impl View for Download {
    type V = DownloadView;

    closed spec fn view(&self) -> DownloadView {
        DownloadView { url: self.url@, root: self.root@, stage: self.stage@ }
    }
}

/// A copy of `e`.
pub fn copy_error(e: &PluginError) -> (out: PluginError)
    ensures
        out@ == e@,
{
    match e {
        PluginError::ReqwestError(m) => PluginError::ReqwestError(m.clone()),
        PluginError::SerdeError(m) => PluginError::SerdeError(m.clone()),
        PluginError::ZipError(m) => PluginError::ZipError(m.clone()),
        PluginError::IoError(m) => PluginError::IoError(m.clone()),
        PluginError::PluginError(m) => PluginError::PluginError(m.clone()),
    }
}

/// A copy of `plugin`.
pub fn copy_plugin(plugin: &Plugin) -> (out: Plugin)
    ensures
        out@ == plugin@,
{
    Plugin {
        name: plugin.name.clone(),
        url: plugin.url.clone(),
        repo: plugin.repo.clone(),
        description: plugin.description.clone(),
    }
}

/// A copy of `plugins`.
pub fn copy_plugins(plugins: &Vec<Plugin>) -> (out: Vec<Plugin>)
    ensures
        out.deep_view() == plugins.deep_view(),
{
    let mut out: Vec<Plugin> = Vec::new();
    let mut i: usize = 0;
    while i < plugins.len()
        invariant
            i <= plugins.len(),
            out.deep_view() == plugins.deep_view().take(i as int),
        decreases plugins.len() - i,
    {
        let ghost done = out.deep_view();
        let plugin = copy_plugin(&plugins[i]);
        out.push(plugin);
        assert(out.deep_view() =~= done.push(plugins[i as int]@));
        assert(plugins.deep_view().take(i + 1) =~= done.push(plugins[i as int]@));
        i += 1;
    }
    assert(plugins.deep_view().take(plugins.len() as int) =~= plugins.deep_view());
    out
}

impl Plugin {
    /// Whether a file of this name can be installed.
    pub fn supports(name: &str) -> (yes: bool)
        ensures
            yes == is_supported(name@),
    {
        let chars = chars_of(name);
        ends_with(&chars, &chars_of(".dll")) || ends_with(&chars, &chars_of(".zip"))
    }

    /// The asset to install from `releases`.
    pub fn select_asset(releases: &Vec<Release>) -> (out: Result<Asset, PluginError>)
        ensures
            result_view(out) == chosen_asset(releases.deep_view()),
    {
        if releases.len() == 0 {
            return Err(PluginError::PluginError(copy_of("No release found")));
        }
        let first = &releases[0];
        assert(releases.deep_view()[0] == first@);
        if first.assets.len() == 0 {
            return Err(PluginError::PluginError(copy_of("No asset found")));
        }
        let asset = &first.assets[0];
        assert(first@.assets[0] == asset@);
        if !Self::supports(asset.name.as_str()) {
            return Err(PluginError::PluginError(copy_of("Asset is not a dll or zip file")));
        }
        Ok(
            Asset {
                name: asset.name.clone(),
                browser_download_url: asset.browser_download_url.clone(),
            },
        )
    }

    /// The download of this plugin into the game directory `path`, before
    /// anything was done.
    pub fn download(&self, path: &str) -> (out: Download)
        ensures
            out@ == DownloadView::start(self.url@, path@),
    {
        Download { url: self.url.clone(), root: copy_of(path), stage: DownloadStage::Asked }
    }
}

impl Download {
    /// The directory that holds the plugins.
    fn dir(&self) -> (out: String)
        ensures
            out@ == plugin_dir(self@.root),
    {
        glue(self.root.as_str(), "/bepinex/plugins")
    }

    /// The file that the asset is written to.
    fn file(&self, asset: &Asset) -> (out: String)
        ensures
            out@ == file_in(plugin_dir(self@.root), asset@.name),
    {
        let dir = self.dir();
        let head = glue(dir.as_str(), "/");
        glue(head.as_str(), asset.name.as_str())
    }

    /// What the download needs next.
    pub fn next(&self) -> (out: DownloadRequest)
        ensures
            out@ == self@.request(),
    {
        match &self.stage {
            DownloadStage::Asked => DownloadRequest::FetchReleases {
                url: glue(self.url.as_str(), "/releases"),
                user_agent: copy_of(USER_AGENT),
            },
            DownloadStage::Refused => DownloadRequest::Say { line: copy_of(RATE_LIMIT_NOTICE) },
            DownloadStage::Reading => DownloadRequest::ReadReleases,
            DownloadStage::Announcing { asset } => DownloadRequest::Say {
                line: copy_of("Found Release"),
            },
            DownloadStage::Fetching { asset } => DownloadRequest::FetchAsset {
                url: asset.browser_download_url.clone(),
                user_agent: copy_of(USER_AGENT),
            },
            DownloadStage::Probing { asset } => DownloadRequest::Exists { path: self.dir() },
            DownloadStage::Making { asset } => DownloadRequest::CreateDirAll { path: self.dir() },
            DownloadStage::Saving { asset } => DownloadRequest::SaveAsset { path: self.file(asset) },
            DownloadStage::Unpacking { asset } => DownloadRequest::Extract {
                archive: self.file(asset),
                into: self.dir(),
            },
            DownloadStage::Cleaning { asset } => DownloadRequest::RemoveFile {
                path: self.file(asset),
            },
            DownloadStage::Ended { outcome } => match outcome {
                Ok(()) => DownloadRequest::Done(Ok(())),
                Err(e) => DownloadRequest::Done(Err(copy_error(e))),
            },
        }
    }

    /// The download, ended with `error`.
    fn fail(url: String, root: String, error: PluginError) -> (out: Download)
        ensures
            out@ == (DownloadView { url: url@, root: root@, stage: Stage::Asked }).failed(error@),
    {
        Download { url, root, stage: DownloadStage::Ended { outcome: Err(error) } }
    }

    /// The download after it was given `answer`.
    pub fn step(self, answer: DownloadAnswer) -> (out: Download)
        ensures
            out@ == self@.step(answer@),
    {
        let Download { url, root, stage } = self;
        match (stage, answer) {
            (DownloadStage::Asked, DownloadAnswer::Status(code)) => {
                if code == RATE_LIMITED {
                    Download { url, root, stage: DownloadStage::Refused }
                } else {
                    Download { url, root, stage: DownloadStage::Reading }
                }
            },
            (DownloadStage::Refused, DownloadAnswer::Said) => Self::fail(
                url,
                root,
                PluginError::PluginError(copy_of("Rate limit exceeded")),
            ),
            (DownloadStage::Asked, DownloadAnswer::Failed(m)) => Self::fail(
                url,
                root,
                PluginError::ReqwestError(m),
            ),
            (DownloadStage::Reading, DownloadAnswer::Releases(list)) => {
                match Plugin::select_asset(&list) {
                    Ok(asset) => Download { url, root, stage: DownloadStage::Announcing { asset } },
                    Err(e) => Self::fail(url, root, e),
                }
            },
            (DownloadStage::Announcing { asset }, DownloadAnswer::Said) => Download {
                url,
                root,
                stage: DownloadStage::Fetching { asset },
            },
            (DownloadStage::Reading, DownloadAnswer::Undecodable(m)) => Self::fail(
                url,
                root,
                PluginError::SerdeError(m),
            ),
            (DownloadStage::Reading, DownloadAnswer::Failed(m)) => Self::fail(
                url,
                root,
                PluginError::ReqwestError(m),
            ),
            (DownloadStage::Fetching { asset }, DownloadAnswer::Succeeded) => Download {
                url,
                root,
                stage: DownloadStage::Probing { asset },
            },
            (DownloadStage::Fetching { asset }, DownloadAnswer::Failed(m)) => Self::fail(
                url,
                root,
                PluginError::ReqwestError(m),
            ),
            (DownloadStage::Probing { asset }, DownloadAnswer::Found(yes)) => {
                if yes {
                    Download { url, root, stage: DownloadStage::Saving { asset } }
                } else {
                    Download { url, root, stage: DownloadStage::Making { asset } }
                }
            },
            (DownloadStage::Making { asset }, DownloadAnswer::Succeeded) => Download {
                url,
                root,
                stage: DownloadStage::Saving { asset },
            },
            (DownloadStage::Making { asset }, DownloadAnswer::Failed(m)) => Self::fail(
                url,
                root,
                PluginError::IoError(m),
            ),
            (DownloadStage::Saving { asset }, DownloadAnswer::Succeeded) => {
                if ends_with(&chars_of(asset.name.as_str()), &chars_of(".zip")) {
                    Download { url, root, stage: DownloadStage::Unpacking { asset } }
                } else {
                    Download { url, root, stage: DownloadStage::Ended { outcome: Ok(()) } }
                }
            },
            (DownloadStage::Saving { asset }, DownloadAnswer::Failed(m)) => Self::fail(
                url,
                root,
                PluginError::IoError(m),
            ),
            (DownloadStage::Unpacking { asset }, DownloadAnswer::Succeeded) => Download {
                url,
                root,
                stage: DownloadStage::Cleaning { asset },
            },
            (DownloadStage::Unpacking { asset }, DownloadAnswer::Failed(m)) => Self::fail(
                url,
                root,
                PluginError::ZipError(m),
            ),
            (DownloadStage::Cleaning { asset }, DownloadAnswer::Succeeded) => Download {
                url,
                root,
                stage: DownloadStage::Ended { outcome: Ok(()) },
            },
            (DownloadStage::Cleaning { asset }, DownloadAnswer::Failed(m)) => Self::fail(
                url,
                root,
                PluginError::IoError(m),
            ),
            (stage, _) => Download { url, root, stage },
        }
    }
}

/// An asset that is neither a library nor an archive ends the download
/// before the asset is asked for: the download stops with an error at the
/// very step that chose the asset.
pub proof fn law_unsupported_asset_is_never_fetched(
    s: DownloadView,
    releases: Seq<ReleaseView>,
)
    requires
        s.stage is Reading,
        releases.len() > 0,
        releases[0].assets.len() > 0,
        !is_supported(releases[0].assets[0].name),
    ensures
        s.step(DownloadAnswerView::Releases(releases)).request() == DownloadRequestView::Done(
            Err(PluginErrorView::PluginError("Asset is not a dll or zip file"@)),
        ),
{
}

/// A repository without a release, or whose first release has no asset,
/// ends the download with an error of the installer's own.
pub proof fn law_missing_asset_is_an_error(s: DownloadView, releases: Seq<ReleaseView>)
    requires
        s.stage is Reading,
        releases.len() == 0 || releases[0].assets.len() == 0,
    ensures
        s.step(DownloadAnswerView::Releases(releases)).request() == DownloadRequestView::Done(
            Err(
                PluginErrorView::PluginError(
                    if releases.len() == 0 {
                        "No release found"@
                    } else {
                        "No asset found"@
                    },
                ),
            ),
        ),
{
}

/// A download that has ended stays as it is, whatever it is told.
pub proof fn law_ended_download_stays(s: DownloadView, answer: DownloadAnswerView)
    requires
        s.stage is Ended,
    ensures
        s.step(answer) == s,
{
}

/// The catalog's interface and the file system as a download meets them
/// when nothing fails.
pub struct Service {
    /// The status of the response to the request for the releases.
    pub status: u16,
    /// The releases that the response lists.
    pub releases: Seq<ReleaseView>,
    /// Whether the plugin directory exists beforehand.
    pub found: bool,
}

impl Service {
    /// The answer that this service gives to what `s` needs next.
    pub open spec fn answer(self, s: DownloadView) -> DownloadAnswerView {
        match s.stage {
            Stage::Asked => DownloadAnswerView::Status(self.status),
            Stage::Reading => DownloadAnswerView::Releases(self.releases),
            Stage::Probing { asset } => DownloadAnswerView::Found(self.found),
            Stage::Refused => DownloadAnswerView::Said,
            Stage::Announcing { asset } => DownloadAnswerView::Said,
            _ => DownloadAnswerView::Succeeded,
        }
    }
}

/// How many stages lie between `stage` and the end.
pub open spec fn rank(stage: Stage) -> int {
    match stage {
        Stage::Asked => 10,
        Stage::Reading => 9,
        Stage::Announcing { asset } => 8,
        Stage::Fetching { asset } => 7,
        Stage::Probing { asset } => 6,
        Stage::Making { asset } => 5,
        Stage::Saving { asset } => 4,
        Stage::Unpacking { asset } => 3,
        Stage::Cleaning { asset } => 2,
        Stage::Refused => 1,
        Stage::Ended { outcome } => 0,
    }
}

/// What the download `s` asks for, from now to its end, every request
/// answered by `service`, and last the outcome it ends with.
pub open spec fn trace(service: Service, s: DownloadView) -> Seq<DownloadRequestView>
    decreases rank(s.stage),
{
    if s.stage is Ended {
        seq![s.request()]
    } else {
        seq![s.request()] + trace(service, s.step(service.answer(s)))
    }
}

/// The work of a download in which nothing fails, and its outcome. A
/// refusal for asking too often is told to the operator and ends it; a list
/// of releases without an asset that can be installed ends it before any
/// asset is asked for; an asset that can be installed is announced; the plugin directory is made unless it exists; a
/// library is written and left as it is; an archive is written, unpacked
/// into the plugin directory and deleted.
pub open spec fn plan(s: DownloadView, service: Service) -> Seq<DownloadRequestView> {
    let dir = plugin_dir(s.root);
    let ask = DownloadRequestView::FetchReleases {
        url: releases_url(s.url),
        user_agent: USER_AGENT@,
    };
    if service.status == RATE_LIMITED {
        seq![
            ask,
            DownloadRequestView::Say { line: RATE_LIMIT_NOTICE@ },
            DownloadRequestView::Done(Err(PluginErrorView::PluginError("Rate limit exceeded"@))),
        ]
    } else {
        match chosen_asset(service.releases) {
            Err(error) => seq![
                ask,
                DownloadRequestView::ReadReleases,
                DownloadRequestView::Done(Err(error)),
            ],
            Ok(asset) => {
                let file = file_in(dir, asset.name);
                let fetch = seq![
                    ask,
                    DownloadRequestView::ReadReleases,
                    DownloadRequestView::Say { line: "Found Release"@ },
                    DownloadRequestView::FetchAsset {
                        url: asset.browser_download_url,
                        user_agent: USER_AGENT@,
                    },
                    DownloadRequestView::Exists { path: dir },
                ];
                let make = if service.found {
                    Seq::empty()
                } else {
                    seq![DownloadRequestView::CreateDirAll { path: dir }]
                };
                let save = seq![DownloadRequestView::SaveAsset { path: file }];
                let unpack = if is_archive(asset.name) {
                    seq![
                        DownloadRequestView::Extract { archive: file, into: dir },
                        DownloadRequestView::RemoveFile { path: file },
                    ]
                } else {
                    Seq::empty()
                };
                fetch + make + save + unpack + seq![DownloadRequestView::Done(Ok(()))]
            },
        }
    }
}

/// A download in which nothing fails asks for exactly the work of the plan,
/// in the order of the plan, and ends as the plan says.
pub proof fn law_calm_download_follows_the_plan(service: Service, url: Seq<char>, root: Seq<char>)
    ensures
        trace(service, DownloadView::start(url, root)) == plan(
            DownloadView::start(url, root),
            service,
        ),
{
    let s0 = DownloadView::start(url, root);
    let s1 = s0.step(service.answer(s0));
    assert(trace(service, s0) == seq![s0.request()] + trace(service, s1));
    if service.status == RATE_LIMITED {
        let ended = s1.step(service.answer(s1));
        assert(trace(service, s1) == seq![s1.request()] + trace(service, ended));
        assert(trace(service, s0) =~= plan(s0, service));
    } else {
        let s2 = s1.step(service.answer(s1));
        assert(trace(service, s1) == seq![s1.request()] + trace(service, s2));
        match chosen_asset(service.releases) {
            Err(error) => {
                assert(trace(service, s0) =~= plan(s0, service));
            },
            Ok(asset) => {
                let fetching = s2.step(service.answer(s2));
                let s3 = fetching.step(service.answer(fetching));
                assert(trace(service, fetching) == seq![fetching.request()] + trace(service, s3));
                let s4 = s0.at(Stage::Saving { asset });
                let s5 = s4.step(service.answer(s4));
                assert(trace(service, s2) == seq![s2.request()] + trace(service, fetching));
                assert(trace(service, s4) == seq![s4.request()] + trace(service, s5));
                if is_archive(asset.name) {
                    let s6 = s5.step(service.answer(s5));
                    let s7 = s6.step(service.answer(s6));
                    assert(trace(service, s5) == seq![s5.request()] + trace(service, s6));
                    assert(trace(service, s6) == seq![s6.request()] + trace(service, s7));
                }
                if service.found {
                    assert(s3.step(service.answer(s3)) == s4);
                    assert(trace(service, s3) == seq![s3.request()] + trace(service, s4));
                    assert(trace(service, s0) =~= plan(s0, service));
                } else {
                    let making = s3.step(service.answer(s3));
                    assert(making.step(service.answer(making)) == s4);
                    assert(trace(service, making) == seq![making.request()] + trace(service, s4));
                    assert(trace(service, s3) == seq![s3.request()] + trace(service, making));
                    assert(trace(service, s0) =~= plan(s0, service));
                }
            },
        }
    }
}

} // verus!
