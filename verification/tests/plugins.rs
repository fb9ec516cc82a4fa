use soulstone_installer::config::{CATALOG_URL, USER_AGENT};
use soulstone_installer::plugin::{
    Asset, Download, DownloadAnswer, DownloadRequest, Plugin, PluginError, Release,
};
use soulstone_installer::plugins::{CatalogVerdict, Plugins, Repository};

fn repository(name: &str, private: bool, topics: &[&str]) -> Repository {
    Repository {
        name: Some(name.to_string()),
        description: Some(format!("{} described", name)),
        url: format!("https://api.example/repos/{}", name),
        html_url: format!("https://example/{}", name),
        private,
        topics: topics.iter().map(|t| t.to_string()).collect(),
    }
}

fn plugin() -> Plugin {
    Plugin {
        name: "Skada".to_string(),
        url: "https://api.example/repos/Skada".to_string(),
        repo: "https://example/Skada".to_string(),
        description: String::new(),
    }
}

fn release(assets: &[(&str, &str)]) -> Release {
    Release {
        assets: assets
            .iter()
            .map(|(name, url)| Asset { name: name.to_string(), browser_download_url: url.to_string() })
            .collect(),
    }
}

fn asked(download: &Download) -> String {
    format!("{:?}", download.next())
}

fn reading() -> Download {
    plugin().download("/game").step(DownloadAnswer::Status(200))
}

#[test]
fn catalog_request_is_fixed() {
    let request = Plugins::catalog_request();
    assert_eq!(request.url, CATALOG_URL);
    assert_eq!(request.url, "https://api.github.com/orgs/SoulstoneAddons/repos");
    assert_eq!(request.user_agent, USER_AGENT);
}

#[test]
fn rate_limit_stops_the_catalog() {
    assert_eq!(Plugins::get_repositories(403), CatalogVerdict::RateLimited);
    assert_eq!(Plugins::get_repositories(200), CatalogVerdict::Decode);
    assert_eq!(Plugins::get_repositories(404), CatalogVerdict::Decode);
    assert_eq!(Plugins::get_repositories(0), CatalogVerdict::Decode);
}

#[test]
fn repositories_without_the_plugin_topic_are_excluded_even_if_public() {
    let listing = vec![
        repository("A", false, &["plugin"]),
        repository("B", false, &[]),
        repository("C", false, &["plugins", "Plugin", " plugin", "mod"]),
        repository("D", true, &["plugin"]),
        repository("E", false, &["mod", "plugin", "other"]),
    ];
    let plugins = Plugins::get_plugins(&listing);
    let names: Vec<&str> = plugins.iter().map(|p| p.name.as_str()).collect();
    assert_eq!(names, vec!["A", "E"]);
    assert_eq!(plugins[0].url, "https://api.example/repos/A");
    assert_eq!(plugins[0].repo, "https://example/A");
    assert_eq!(plugins[0].description, "A described");
    assert!(Plugins::get_plugins(&vec![]).is_empty());
}

#[test]
fn repository_without_name_or_description_gives_empty_texts() {
    let mut r = repository("A", false, &["plugin"]);
    r.name = None;
    r.description = None;
    let plugins = Plugins::get_plugins(&vec![r]);
    assert_eq!(plugins.len(), 1);
    assert_eq!(plugins[0].name, "");
    assert_eq!(plugins[0].description, "");
}

#[test]
fn first_asset_of_first_release_is_chosen() {
    let releases = vec![
        release(&[("New.dll", "https://d/new"), ("Other.zip", "https://d/other")]),
        release(&[("Old.dll", "https://d/old")]),
    ];
    let asset = Plugin::select_asset(&releases).unwrap();
    assert_eq!(asset.name, "New.dll");
    assert_eq!(asset.browser_download_url, "https://d/new");
}

#[test]
fn no_release_and_no_asset_are_errors() {
    match Plugin::select_asset(&vec![]) {
        Err(PluginError::PluginError(m)) => assert_eq!(m, "No release found"),
        other => panic!("{:?}", other),
    }
    match Plugin::select_asset(&vec![release(&[]), release(&[("A.dll", "u")])]) {
        Err(PluginError::PluginError(m)) => assert_eq!(m, "No asset found"),
        other => panic!("{:?}", other),
    }
}

#[test]
fn asset_that_is_no_library_or_archive_is_rejected() {
    match Plugin::select_asset(&vec![release(&[("Plugin.exe", "https://d/exe")])]) {
        Err(PluginError::PluginError(m)) => assert_eq!(m, "Asset is not a dll or zip file"),
        other => panic!("{:?}", other),
    }
    assert!(Plugin::supports("Plugin.dll"));
    assert!(Plugin::supports("Plugin.zip"));
    assert!(Plugin::supports(".zip"));
    assert!(!Plugin::supports("Plugin.exe"));
    assert!(!Plugin::supports("Plugin.DLL"));
    assert!(!Plugin::supports("Plugin.zip.txt"));
    assert!(!Plugin::supports("zip"));
    assert!(!Plugin::supports(""));
}

#[test]
fn empty_release_list_ends_the_download_with_an_error() {
    let download = reading().step(DownloadAnswer::Releases(vec![]));
    match download.next() {
        DownloadRequest::Done(Err(e)) => {
            assert_eq!(e.message(), "Plugin Error: No release found")
        },
        other => panic!("{:?}", other),
    }
}

#[test]
fn unsupported_asset_is_rejected_before_any_download() {
    let download = plugin().download("/game");
    let mut asked_for: Vec<String> = vec![asked(&download)];
    let download = download.step(DownloadAnswer::Status(200));
    asked_for.push(asked(&download));
    let download =
        download.step(DownloadAnswer::Releases(vec![release(&[("Plugin.exe", "https://d/exe")])]));
    match download.next() {
        DownloadRequest::Done(Err(e)) => {
            assert_eq!(e.message(), "Plugin Error: Asset is not a dll or zip file")
        },
        other => panic!("{:?}", other),
    }
    assert_eq!(
        asked_for,
        vec![
            format!(
                "FetchReleases {{ url: \"https://api.example/repos/Skada/releases\", user_agent: {:?} }}",
                USER_AGENT
            ),
            "ReadReleases".to_string(),
        ]
    );
}

#[test]
fn library_is_saved_and_left_as_it_is() {
    let mut download = reading().step(DownloadAnswer::Releases(vec![release(&[(
        "Skada.dll",
        "https://d/skada.dll",
    )])]));
    let mut asked_for: Vec<String> = Vec::new();
    loop {
        let request = download.next();
        if let DownloadRequest::Done(outcome) = request {
            assert!(outcome.is_ok());
            break;
        }
        asked_for.push(format!("{:?}", request));
        download = download.step(match request {
            DownloadRequest::Exists { .. } => DownloadAnswer::Found(true),
            DownloadRequest::Say { .. } => DownloadAnswer::Said,
            _ => DownloadAnswer::Succeeded,
        });
    }
    assert_eq!(
        asked_for,
        vec![
            "Say { line: \"Found Release\" }".to_string(),
            format!("FetchAsset {{ url: \"https://d/skada.dll\", user_agent: {:?} }}", USER_AGENT),
            "Exists { path: \"/game/bepinex/plugins\" }".to_string(),
            "SaveAsset { path: \"/game/bepinex/plugins/Skada.dll\" }".to_string(),
        ]
    );
}

#[test]
fn archive_is_unpacked_in_place_and_deleted() {
    let mut download = reading().step(DownloadAnswer::Releases(vec![release(&[(
        "Skada.zip",
        "https://d/skada.zip",
    )])]));
    let mut asked_for: Vec<String> = Vec::new();
    loop {
        let request = download.next();
        if let DownloadRequest::Done(outcome) = request {
            assert!(outcome.is_ok());
            break;
        }
        asked_for.push(format!("{:?}", request));
        download = download.step(match request {
            DownloadRequest::Exists { .. } => DownloadAnswer::Found(false),
            DownloadRequest::Say { .. } => DownloadAnswer::Said,
            _ => DownloadAnswer::Succeeded,
        });
    }
    assert_eq!(
        asked_for,
        vec![
            "Say { line: \"Found Release\" }".to_string(),
            format!("FetchAsset {{ url: \"https://d/skada.zip\", user_agent: {:?} }}", USER_AGENT),
            "Exists { path: \"/game/bepinex/plugins\" }".to_string(),
            "CreateDirAll { path: \"/game/bepinex/plugins\" }".to_string(),
            "SaveAsset { path: \"/game/bepinex/plugins/Skada.zip\" }".to_string(),
            "Extract { archive: \"/game/bepinex/plugins/Skada.zip\", into: \"/game/bepinex/plugins\" }"
                .to_string(),
            "RemoveFile { path: \"/game/bepinex/plugins/Skada.zip\" }".to_string(),
        ]
    );
}

fn error_after(successes: usize, last: DownloadAnswer) -> String {
    let mut download = reading().step(DownloadAnswer::Releases(vec![release(&[(
        "Skada.zip",
        "https://d/skada.zip",
    )])]));
    let mut done: usize = 0;
    while done < successes {
        let answer = match download.next() {
            DownloadRequest::Exists { .. } => DownloadAnswer::Found(false),
            DownloadRequest::Say { .. } => DownloadAnswer::Said,
            _ => DownloadAnswer::Succeeded,
        };
        download = download.step(answer);
        done += 1;
    }
    download = download.step(last);
    match download.next() {
        DownloadRequest::Done(Err(e)) => e.message(),
        other => panic!("{:?}", other),
    }
}

#[test]
fn each_stage_fails_with_its_own_error() {
    let failed = || DownloadAnswer::Failed("boom".to_string());
    match plugin().download("/game").step(failed()).next() {
        DownloadRequest::Done(Err(e)) => assert_eq!(e.message(), "Reqwest Error: boom"),
        other => panic!("{:?}", other),
    }
    match reading().step(failed()).next() {
        DownloadRequest::Done(Err(e)) => assert_eq!(e.message(), "Reqwest Error: boom"),
        other => panic!("{:?}", other),
    }
    match reading().step(DownloadAnswer::Undecodable("expected a list".to_string())).next() {
        DownloadRequest::Done(Err(e)) => assert_eq!(e.message(), "Serde Error: expected a list"),
        other => panic!("{:?}", other),
    }
    assert_eq!(error_after(1, failed()), "Reqwest Error: boom");
    assert_eq!(error_after(3, failed()), "IO Error: boom");
    assert_eq!(error_after(4, failed()), "IO Error: boom");
    assert_eq!(error_after(5, failed()), "Zip Error: boom");
    assert_eq!(error_after(6, failed()), "IO Error: boom");
}

#[test]
fn rate_limited_release_list_is_an_error_of_the_plugin() {
    let download = plugin().download("/game").step(DownloadAnswer::Status(403));
    match download.next() {
        DownloadRequest::Say { line } => {
            assert_eq!(line, "Rate limit exceeded, please wait a few minutes and try again.")
        },
        other => panic!("{:?}", other),
    }
    let download = download.step(DownloadAnswer::Succeeded);
    assert!(matches!(download.next(), DownloadRequest::Say { .. }));
    let download = download.step(DownloadAnswer::Said);
    match download.next() {
        DownloadRequest::Done(Err(PluginError::PluginError(m))) => {
            assert_eq!(m, "Rate limit exceeded")
        },
        other => panic!("{:?}", other),
    }
    let download = download.step(DownloadAnswer::Succeeded);
    assert!(matches!(download.next(), DownloadRequest::Done(Err(_))));
}

#[test]
fn download_ignores_an_answer_that_does_not_fit() {
    let download = plugin().download("/game").step(DownloadAnswer::Succeeded);
    assert!(matches!(download.next(), DownloadRequest::FetchReleases { .. }));
    let download = download.step(DownloadAnswer::Releases(vec![]));
    assert!(matches!(download.next(), DownloadRequest::FetchReleases { .. }));
    let download = reading().step(DownloadAnswer::Status(200));
    assert!(matches!(download.next(), DownloadRequest::ReadReleases));
}

#[test]
fn plugin_error_messages() {
    assert_eq!(PluginError::ReqwestError("a".to_string()).message(), "Reqwest Error: a");
    assert_eq!(PluginError::SerdeError("b".to_string()).message(), "Serde Error: b");
    assert_eq!(PluginError::ZipError("c".to_string()).message(), "Zip Error: c");
    assert_eq!(PluginError::IoError("d".to_string()).message(), "IO Error: d");
    assert_eq!(PluginError::PluginError("e".to_string()).message(), "Plugin Error: e");
}
