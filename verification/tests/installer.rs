use soulstone_installer::config::{BEPINEX_URL, USER_AGENT};
use soulstone_installer::driver::{begin_installation, Driver, DriverAnswer, DriverRequest};
use soulstone_installer::installer::{
    Install, InstallAnswer, InstallRequest, InstallResult, Installer, InstallerError, Presence,
};
use soulstone_installer::locate::{LocateAnswer, LocateRequest, RegistryView};
use soulstone_installer::paths::Platform;
use soulstone_installer::plugin::{Plugin, PluginError};
use soulstone_installer::selection::{Selection, SelectionAnswer, SelectionRequest};
use soulstone_installer::setup::{Setup, SetupAnswer, SetupRequest};
use soulstone_installer::steam::{Steam, SteamGame};

fn presence(root: bool, core: bool, plugins: bool, config: bool, interop: bool) -> Presence {
    Presence { root, core, plugins, config, interop }
}

fn plugin(name: &str) -> Plugin {
    Plugin {
        name: name.to_string(),
        url: format!("https://api.example/repos/{}", name),
        repo: format!("https://example/{}", name),
        description: String::new(),
    }
}

fn names(plugins: &Vec<Plugin>) -> Vec<String> {
    plugins.iter().map(|p| p.name.clone()).collect()
}

fn game(id: &str, path: &str) -> SteamGame {
    SteamGame { id: id.to_string(), name: format!("Game {}", id), path: path.to_string() }
}

fn red(text: &str) -> String {
    ansi_term::Colour::Red.paint(text).to_string()
}

fn green(text: &str) -> String {
    ansi_term::Colour::Green.paint(text).to_string()
}

fn yellow(text: &str) -> String {
    ansi_term::Colour::Yellow.paint(text).to_string()
}

fn gray(text: &str) -> String {
    ansi_term::Colour::RGB(128, 128, 128).paint(text).to_string()
}

#[test]
fn installer_keeps_its_game_directory() {
    assert_eq!(Installer::new("/games/Soulstone Survivors").path(), "/games/Soulstone Survivors");
    assert_eq!(Installer::new("").path(), "");
}

#[test]
fn runtime_directories() {
    let dirs = Installer::new("/game").runtime_dirs(Platform::Unix);
    assert_eq!(dirs.root, "/game/BepInEx");
    assert_eq!(dirs.core, "/game/BepInEx/core");
    assert_eq!(dirs.plugins, "/game/BepInEx/plugins");
    assert_eq!(dirs.config, "/game/BepInEx/config");
    assert_eq!(dirs.interop, "/game/BepInEx/interop");
    let dirs = Installer::new("C:\\Game").runtime_dirs(Platform::Windows);
    assert_eq!(dirs.root, "C:\\Game\\BepInEx");
    assert_eq!(dirs.core, "C:\\Game\\BepInEx\\core");
}

#[test]
fn runtime_is_installed_when_all_four_directories_exist() {
    let installer = Installer::new("/game");
    let mut bits: u32 = 0;
    while bits < 32 {
        let found = presence(bits & 1 != 0, bits & 2 != 0, bits & 4 != 0, bits & 8 != 0, bits & 16 != 0);
        assert_eq!(installer.is_installed(&found), bits & 15 == 15);
        assert_eq!(installer.has_ran(&found), bits & 1 != 0 && bits & 16 != 0);
        bits += 1;
    }
}

#[test]
fn installed_runtime_is_not_set_up_again() {
    let install = Installer::new("/game").install(Platform::Unix);
    match install.next() {
        InstallRequest::Probe(dirs) => assert_eq!(dirs.root, "/game/BepInEx"),
        other => panic!("{:?}", other),
    }
    let install = install.step(InstallAnswer::Probed(presence(true, true, true, true, false)));
    assert!(matches!(install.next(), InstallRequest::DownloadPlugins));
    let install = install.step(InstallAnswer::SetupDone);
    assert!(matches!(install.next(), InstallRequest::DownloadPlugins));
    let install = install.step(InstallAnswer::Plugins(vec![plugin("A")]));
    match install.next() {
        InstallRequest::Done(Ok(InstallResult { plugins: Some(plugins), installed_bepinex })) => {
            assert_eq!(names(&plugins), vec!["A"]);
            assert_eq!(installed_bepinex, None);
        },
        other => panic!("{:?}", other),
    }
}

#[test]
fn missing_runtime_is_set_up_first() {
    let install = Installer::new("/game")
        .install(Platform::Unix)
        .step(InstallAnswer::Probed(presence(true, true, false, true, true)));
    assert!(matches!(install.next(), InstallRequest::Setup));
    let install = install.step(InstallAnswer::SetupDone);
    assert!(matches!(install.next(), InstallRequest::DownloadPlugins));
    let install = install.step(InstallAnswer::Plugins(vec![]));
    match install.next() {
        InstallRequest::Done(Ok(InstallResult { plugins: Some(plugins), installed_bepinex })) => {
            assert!(plugins.is_empty());
            assert_eq!(installed_bepinex, Some(true));
        },
        other => panic!("{:?}", other),
    }
}

fn probing_failed() -> Install {
    Installer::new("/game")
        .install(Platform::Unix)
        .step(InstallAnswer::Probed(presence(false, false, false, false, false)))
}

#[test]
fn failed_setup_or_selection_ends_the_installation() {
    let install =
        probing_failed().step(InstallAnswer::SetupFailed(InstallerError::ZipError("bad archive".to_string())));
    match install.next() {
        InstallRequest::Done(Err(e)) => assert_eq!(e.message(), "Zip Error: bad archive"),
        other => panic!("{:?}", other),
    }
    let install = probing_failed()
        .step(InstallAnswer::SetupDone)
        .step(InstallAnswer::PluginsFailed(InstallerError::ReqwestError("offline".to_string())));
    match install.next() {
        InstallRequest::Done(Err(e)) => assert_eq!(e.message(), "Reqwest Error: offline"),
        other => panic!("{:?}", other),
    }
}

#[test]
fn installer_error_messages() {
    assert_eq!(InstallerError::IoError("a".to_string()).message(), "IO Error: a");
    assert_eq!(InstallerError::ZipError("b".to_string()).message(), "Zip Error: b");
    assert_eq!(InstallerError::ReqwestError("c".to_string()).message(), "Reqwest Error: c");
    assert_eq!(InstallerError::InstallError("d".to_string()).message(), "Install Error: d");
}

fn run_setup(mut setup: Setup, found: bool, names: Vec<&str>) -> Vec<String> {
    let mut asked: Vec<String> = Vec::new();
    loop {
        let request = setup.next();
        let answer = match &request {
            SetupRequest::Done(outcome) => {
                assert!(outcome.is_ok());
                return asked;
            },
            SetupRequest::Exists { .. } => SetupAnswer::Found(found),
            SetupRequest::ListDir { .. } => {
                SetupAnswer::Names(names.iter().map(|n| n.to_string()).collect())
            },
            _ => SetupAnswer::Succeeded,
        };
        asked.push(format!("{:?}", request));
        setup = setup.step(answer);
    }
}

#[test]
fn setup_in_order() {
    let asked = run_setup(
        Installer::new("/game").setup(Platform::Unix),
        false,
        vec!["BepInEx", "dotnet", "winhttp.dll"],
    );
    assert_eq!(
        asked,
        vec![
            "Exists { path: \"/game/temp\" }".to_string(),
            "CreateDir { path: \"/game/temp\" }".to_string(),
            format!("Download {{ url: {:?}, user_agent: {:?} }}", BEPINEX_URL, USER_AGENT),
            "WriteFile { path: \"/game/temp/bepinex.zip\" }".to_string(),
            "OpenArchive { path: \"/game/temp/bepinex.zip\" }".to_string(),
            "Extract { into: \"/game/temp\" }".to_string(),
            "Pause { seconds: 1 }".to_string(),
            "RemoveFile { path: \"/game/temp/bepinex.zip\" }".to_string(),
            "ListDir { path: \"/game/temp\" }".to_string(),
            "Move { from: \"/game/temp/BepInEx\", to: \"/game/BepInEx\" }".to_string(),
            "Move { from: \"/game/temp/dotnet\", to: \"/game/dotnet\" }".to_string(),
            "Move { from: \"/game/temp/winhttp.dll\", to: \"/game/winhttp.dll\" }".to_string(),
            "RemoveDirAll { path: \"/game/temp\" }".to_string(),
        ]
    );
}

#[test]
fn setup_does_not_make_a_scratch_directory_that_exists() {
    let asked = run_setup(Installer::new("C:\\Game").setup(Platform::Windows), true, vec![]);
    assert_eq!(
        asked,
        vec![
            "Exists { path: \"C:\\\\Game\\\\temp\" }".to_string(),
            format!("Download {{ url: {:?}, user_agent: {:?} }}", BEPINEX_URL, USER_AGENT),
            "WriteFile { path: \"C:\\\\Game\\\\temp\\\\bepinex.zip\" }".to_string(),
            "OpenArchive { path: \"C:\\\\Game\\\\temp\\\\bepinex.zip\" }".to_string(),
            "Extract { into: \"C:\\\\Game\\\\temp\" }".to_string(),
            "Pause { seconds: 1 }".to_string(),
            "RemoveFile { path: \"C:\\\\Game\\\\temp\\\\bepinex.zip\" }".to_string(),
            "ListDir { path: \"C:\\\\Game\\\\temp\" }".to_string(),
            "RemoveDirAll { path: \"C:\\\\Game\\\\temp\" }".to_string(),
        ]
    );
}

fn setup_failing_at(stage: usize) -> String {
    let mut setup = Installer::new("/game").setup(Platform::Unix);
    let mut at: usize = 0;
    loop {
        let request = setup.next();
        let answer = match &request {
            SetupRequest::Done(Err(e)) => return e.message(),
            SetupRequest::Done(Ok(())) => panic!("setup ended well"),
            _ if at == stage => SetupAnswer::Failed(format!("failed at {}", stage)),
            SetupRequest::Exists { .. } => SetupAnswer::Found(false),
            SetupRequest::ListDir { .. } => SetupAnswer::Names(vec!["a".to_string(), "b".to_string()]),
            _ => SetupAnswer::Succeeded,
        };
        at += 1;
        setup = setup.step(answer);
    }
}

#[test]
fn setup_failure_names_the_stage() {
    assert_eq!(setup_failing_at(1), "IO Error: failed at 1");
    assert_eq!(setup_failing_at(2), "Reqwest Error: failed at 2");
    assert_eq!(setup_failing_at(3), "IO Error: failed at 3");
    assert_eq!(setup_failing_at(4), "IO Error: failed at 4");
    assert_eq!(setup_failing_at(5), "Zip Error: failed at 5");
    assert_eq!(setup_failing_at(7), "IO Error: failed at 7");
    assert_eq!(setup_failing_at(8), "IO Error: failed at 8");
    assert_eq!(setup_failing_at(9), "IO Error: failed at 9");
    assert_eq!(setup_failing_at(10), "IO Error: failed at 10");
    assert_eq!(setup_failing_at(11), "IO Error: failed at 11");
}

#[test]
fn setup_ignores_an_answer_that_does_not_fit() {
    let setup = Installer::new("/game").setup(Platform::Unix);
    let setup = setup.step(SetupAnswer::Succeeded);
    assert!(matches!(setup.next(), SetupRequest::Exists { .. }));
    let setup = setup.step(SetupAnswer::Failed("no".to_string()));
    assert!(matches!(setup.next(), SetupRequest::Exists { .. }));
    let setup = setup.step(SetupAnswer::Found(true)).step(SetupAnswer::Found(true));
    assert!(matches!(setup.next(), SetupRequest::Download { .. }));
}

fn select(catalog: Vec<Plugin>, replies: Vec<&str>, failing: Vec<&str>) -> (Vec<String>, Vec<String>) {
    let mut selection: Selection = Installer::new("/game").download_plugins();
    let mut log: Vec<String> = Vec::new();
    let mut catalog = Some(catalog);
    let mut replies = replies.into_iter();
    loop {
        let request = selection.next();
        let answer = match request {
            SelectionRequest::ListPlugins => SelectionAnswer::Catalog(catalog.take().unwrap()),
            SelectionRequest::Ask { line } => {
                log.push(format!("? {}", line));
                SelectionAnswer::Line(replies.next().unwrap().to_string())
            },
            SelectionRequest::Say { line } => {
                log.push(format!("! {}", line));
                SelectionAnswer::Said
            },
            SelectionRequest::Download { plugin, path } => {
                log.push(format!("> {} into {}", plugin.name, path));
                if failing.contains(&plugin.name.as_str()) {
                    SelectionAnswer::DownloadFailed(PluginError::PluginError("No release found".to_string()))
                } else {
                    SelectionAnswer::Downloaded
                }
            },
            SelectionRequest::Done(outcome) => return (names(&outcome.unwrap()), log),
        };
        selection = selection.step(answer);
    }
}

#[test]
fn failed_download_does_not_abort_the_plugins_after_it() {
    let (installed, log) = select(
        vec![plugin("A"), plugin("B"), plugin("C"), plugin("D")],
        vec!["y\n", "n\n", " Y \r\n", "yes\n"],
        vec!["A"],
    );
    assert_eq!(installed, vec!["C"]);
    assert_eq!(
        log,
        vec![
            "? Do you want to install A? (Y/N)",
            "! Downloading A...",
            "> A into /game",
            "! Error downloading A: Plugin Error: No release found",
            "? Do you want to install B? (Y/N)",
            "? Do you want to install C? (Y/N)",
            "! Downloading C...",
            "> C into /game",
            "! C downloaded successfully!",
            "? Do you want to install D? (Y/N)",
        ]
    );
}

#[test]
fn empty_catalog_installs_nothing() {
    let (installed, log) = select(vec![], vec![], vec![]);
    assert!(installed.is_empty());
    assert!(log.is_empty());
}

#[test]
fn catalog_that_cannot_be_had_ends_the_selection() {
    let selection = Installer::new("/game")
        .download_plugins()
        .step(SelectionAnswer::CatalogFailed("offline".to_string()));
    match selection.next() {
        SelectionRequest::Done(Err(e)) => assert_eq!(e.message(), "Reqwest Error: offline"),
        other => panic!("{:?}", other),
    }
}

#[test]
fn steam_is_looked_for_in_the_registry_on_windows() {
    let search = Steam::get_steam_path(Platform::Windows);
    match search.next() {
        LocateRequest::OpenKey { key, view } => {
            assert_eq!(key, "SOFTWARE\\WOW6432Node\\Valve\\Steam");
            assert_eq!(view, RegistryView::Bits32);
        },
        other => panic!("{:?}", other),
    }
    let search = search.step(LocateAnswer::Opened(false));
    match search.next() {
        LocateRequest::OpenKey { key, view } => {
            assert_eq!(key, "SOFTWARE\\Valve\\Steam");
            assert_eq!(view, RegistryView::Bits64);
        },
        other => panic!("{:?}", other),
    }
    let search = search.step(LocateAnswer::Opened(true));
    match search.next() {
        LocateRequest::ReadValue { name } => assert_eq!(name, "InstallPath"),
        other => panic!("{:?}", other),
    }
    let search = search.step(LocateAnswer::Value(Some("C:\\Steam".to_string())));
    match search.next() {
        LocateRequest::Done(path) => assert_eq!(path, Some("C:\\Steam".to_string())),
        other => panic!("{:?}", other),
    }
}

#[test]
fn steam_is_not_found_without_key_or_value() {
    let search = Steam::locate_from(Platform::Windows, Some("/home/u".to_string()))
        .step(LocateAnswer::Opened(false))
        .step(LocateAnswer::Opened(false));
    assert!(matches!(search.next(), LocateRequest::Done(None)));
    let search = Steam::locate_from(Platform::Windows, None)
        .step(LocateAnswer::Opened(true))
        .step(LocateAnswer::Value(None));
    assert!(matches!(search.next(), LocateRequest::Done(None)));
}

#[test]
fn steam_is_looked_for_below_the_home_directory_elsewhere() {
    let search = Steam::locate_from(Platform::Unix, Some("/home/u".to_string()));
    match search.next() {
        LocateRequest::Exists { path } => assert_eq!(path, "/home/u/.steam/steam"),
        other => panic!("{:?}", other),
    }
    match search.step(LocateAnswer::Found(true)).next() {
        LocateRequest::Done(path) => assert_eq!(path, Some("/home/u/.steam/steam".to_string())),
        other => panic!("{:?}", other),
    }
    let search =
        Steam::locate_from(Platform::Unix, Some("/home/u".to_string())).step(LocateAnswer::Found(false));
    assert!(matches!(search.next(), LocateRequest::Done(None)));
    assert!(matches!(Steam::locate_from(Platform::Unix, None).next(), LocateRequest::Done(None)));
}

#[test]
fn home_directory_of_this_user() {
    match Steam::get_steam_path(Platform::Unix).next() {
        LocateRequest::Exists { path } => {
            assert!(path.ends_with(".steam/steam"));
            assert!(path.len() > ".steam/steam".len());
        },
        LocateRequest::Done(None) => {},
        other => panic!("{:?}", other),
    }
}

fn drive(mut run: Driver, answers: Vec<DriverAnswer>) -> Vec<String> {
    let mut log: Vec<String> = Vec::new();
    let mut answers = answers.into_iter();
    loop {
        let request = run.next();
        let answer = match request {
            DriverRequest::Done => return log,
            DriverRequest::Say { line } => {
                log.push(line);
                DriverAnswer::Said
            },
            other => {
                log.push(format!("{:?}", other));
                answers.next().unwrap()
            },
        };
        run = run.step(answer);
    }
}

#[test]
fn run_without_steam() {
    assert_eq!(
        drive(begin_installation(), vec![DriverAnswer::SteamPath(None)]),
        vec![gray("Checking for Steam..."), "LocateSteam".to_string(), red("Steam not found!")]
    );
}

#[test]
fn painted_lines_carry_escape_sequences() {
    match begin_installation().next() {
        DriverRequest::Say { line } => {
            assert_eq!(line, "\u{1b}[38;2;128;128;128mChecking for Steam...\u{1b}[0m")
        },
        other => panic!("{:?}", other),
    }
    let run = begin_installation().step(DriverAnswer::Said).step(DriverAnswer::SteamPath(None));
    match run.next() {
        DriverRequest::Say { line } => assert_eq!(line, "\u{1b}[31mSteam not found!\u{1b}[0m"),
        other => panic!("{:?}", other),
    }
}

#[test]
fn run_without_games_or_without_the_game() {
    assert_eq!(
        drive(
            begin_installation(),
            vec![DriverAnswer::SteamPath(Some("/steam".to_string())), DriverAnswer::Games(None)]
        ),
        vec![
            gray("Checking for Steam..."),
            "LocateSteam".to_string(),
            green("Steam found!"),
            gray("Checking for games..."),
            "ScanGames { steam_path: \"/steam\" }".to_string(),
            red("No games found!"),
        ]
    );
    assert_eq!(
        drive(
            begin_installation(),
            vec![
                DriverAnswer::SteamPath(Some("/steam".to_string())),
                DriverAnswer::Games(Some(vec![game("1", "/a"), game("20660200", "/b")])),
            ]
        ),
        vec![
            gray("Checking for Steam..."),
            "LocateSteam".to_string(),
            green("Steam found!"),
            gray("Checking for games..."),
            "ScanGames { steam_path: \"/steam\" }".to_string(),
            green("2 Games found!"),
            red("Soulstone Survivors not found!"),
        ]
    );
}

fn until_install() -> Vec<DriverAnswer> {
    vec![
        DriverAnswer::SteamPath(Some("/steam".to_string())),
        DriverAnswer::Games(Some(vec![
            game("1", "/a"),
            game("2066020", "/games/Soulstone Survivors"),
            game("2066020", "/other"),
        ])),
    ]
}

fn before_install() -> Vec<String> {
    vec![
        gray("Checking for Steam..."),
        "LocateSteam".to_string(),
        green("Steam found!"),
        gray("Checking for games..."),
        "ScanGames { steam_path: \"/steam\" }".to_string(),
        green("3 Games found!"),
        green("Soulstone Survivors found!"),
        gray("Installing BepInEx..."),
        "Install { game_path: \"/games/Soulstone Survivors\" }".to_string(),
    ]
}

#[test]
fn run_that_installs_runtime_and_plugins() {
    let mut answers = until_install();
    answers.push(DriverAnswer::Installed(InstallResult {
        plugins: Some(vec![plugin("A"), plugin("B")]),
        installed_bepinex: Some(true),
    }));
    let mut expected = before_install();
    expected.push(green("BepInEx installed!"));
    expected.push(green("2 Plugins installed!"));
    assert_eq!(drive(begin_installation(), answers), expected);
}

#[test]
fn run_that_finds_the_runtime_installed() {
    let mut answers = until_install();
    answers.push(DriverAnswer::Installed(InstallResult { plugins: None, installed_bepinex: None }));
    let mut expected = before_install();
    expected.push(yellow("BepInEx already installed!"));
    expected.push(green("No plugins installed!"));
    assert_eq!(drive(begin_installation(), answers), expected);
    let mut answers = until_install();
    answers.push(DriverAnswer::Installed(InstallResult {
        plugins: Some(vec![]),
        installed_bepinex: Some(false),
    }));
    let mut expected = before_install();
    expected.push(yellow("BepInEx already installed!"));
    expected.push(green("0 Plugins installed!"));
    assert_eq!(drive(begin_installation(), answers), expected);
}

#[test]
fn run_whose_installation_fails() {
    let mut answers = until_install();
    answers.push(DriverAnswer::InstallFailed(InstallerError::IoError("disk full".to_string())));
    let mut expected = before_install();
    expected.push(red("IO Error: disk full"));
    assert_eq!(drive(begin_installation(), answers), expected);
}

#[test]
fn run_waits_for_its_lines_to_be_printed() {
    let run = begin_installation().step(DriverAnswer::SteamPath(Some("/steam".to_string())));
    assert!(matches!(run.next(), DriverRequest::Say { .. }));
    let run = run.step(DriverAnswer::Said);
    assert!(matches!(run.next(), DriverRequest::LocateSteam));
    let run = run.step(DriverAnswer::Said).step(DriverAnswer::Games(None));
    assert!(matches!(run.next(), DriverRequest::LocateSteam));
}
