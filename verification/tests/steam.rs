use soulstone_installer::paths::Platform;
use soulstone_installer::scan::{DirEntry, GameScan, ScanAnswer, ScanRequest};
use soulstone_installer::steam::{Steam, SteamGame};

/// A disk made of a few directories and files.
struct Disk {
    dirs: Vec<(String, Vec<DirEntry>)>,
    files: Vec<(String, String)>,
}

impl Disk {
    fn answer(&self, request: &ScanRequest) -> ScanAnswer {
        match request {
            ScanRequest::ListDir(path) => ScanAnswer::Listing(
                self.dirs.iter().find(|(p, _)| p == path).map(|(_, entries)| {
                    entries
                        .iter()
                        .map(|e| DirEntry { name: e.name.clone(), is_dir: e.is_dir })
                        .collect()
                }),
            ),
            ScanRequest::ReadFile(path) => ScanAnswer::Content(
                self.files.iter().find(|(p, _)| p == path).map(|(_, text)| text.clone()),
            ),
            ScanRequest::Done => unreachable!(),
        }
    }
}

fn run(mut scan: GameScan, disk: &Disk) -> (Vec<SteamGame>, Vec<String>) {
    let mut asked = Vec::new();
    loop {
        let request = scan.next();
        if let ScanRequest::Done = request {
            assert!(scan.is_done());
            return (scan.games(), asked);
        }
        asked.push(format!("{:?}", request));
        scan = scan.step(disk.answer(&request));
    }
}

fn file(name: &str) -> DirEntry {
    DirEntry { name: name.to_string(), is_dir: false }
}

fn dir(name: &str) -> DirEntry {
    DirEntry { name: name.to_string(), is_dir: true }
}

#[test]
fn one_library_one_game() {
    let library = "\"libraryfolders\"\n{\n\t\"0\"\n\t{\n\t\t\"path\"\t\t\"C:\\\\Games\"\n\t}\n}\n";
    let folders = Steam::get_library_folders(&Some(library.to_string()));
    assert_eq!(folders, Some(vec!["C:\\Games".to_string()]));
    let disk = Disk {
        dirs: vec![("C:\\Games\\steamapps".to_string(), vec![file("appmanifest_2066020.acf")])],
        files: vec![(
            "C:\\Games\\steamapps\\appmanifest_2066020.acf".to_string(),
            "\"AppState\"\n{\n\t\"appid\"\t\t\"2066020\"\n\t\"name\"\t\t\"Soulstone Survivors\"\n\t\"installdir\"\t\t\"Soulstone Survivors\"\n}\n"
                .to_string(),
        )],
    };
    let scan = Steam::iterate_games(Platform::Windows, folders).unwrap();
    let (games, _) = run(scan, &disk);
    assert_eq!(games.len(), 1);
    assert_eq!(games[0].id, "2066020");
    assert_eq!(games[0].name, "Soulstone Survivors");
    assert_eq!(games[0].path, "C:\\Games\\steamapps\\common\\Soulstone Survivors");
}

#[test]
fn library_folders_file_cannot_be_read() {
    assert_eq!(Steam::get_library_folders(&None), None);
    assert!(Steam::iterate_games(Platform::Unix, None).is_none());
}

#[test]
fn library_folders_in_file_order_with_backslashes_collapsed() {
    let text = "\"libraryfolders\"\r\n{\r\n\t\"0\"\r\n\t{\r\n\t\t\"path\"\t\t\"C:\\\\Program Files (x86)\\\\Steam\"\r\n\t\t\"label\"\t\t\"\"\r\n\t}\r\n\t\"1\"\r\n\t{\r\n\t\t\"path\"\t\t\"D:\\\\SteamLibrary\"\r\n\t}\r\n}\r\n";
    assert_eq!(
        Steam::get_library_folders(&Some(text.to_string())),
        Some(vec!["C:\\Program Files (x86)\\Steam".to_string(), "D:\\SteamLibrary".to_string()])
    );
}

#[test]
fn path_line_without_value_is_discarded() {
    let text = "\t\"path\"\n\t\"path\"\t\t\"\"\n\t\"path\"\t\t\"/a\"\n\"path\" \"/b";
    assert_eq!(
        Steam::get_library_folders(&Some(text.to_string())),
        Some(vec!["/a".to_string(), "/b".to_string()])
    );
}

#[test]
fn library_folders_file_path() {
    assert_eq!(
        Steam::library_folders_file(Platform::Unix, "/home/u/.steam/steam"),
        "/home/u/.steam/steam/steamapps/libraryfolders.vdf"
    );
    assert_eq!(
        Steam::library_folders_file(Platform::Windows, "C:\\Steam"),
        "C:\\Steam\\steamapps/libraryfolders.vdf"
    );
    assert_eq!(
        Steam::library_folders_file(Platform::Windows, "C:\\Steam\\"),
        "C:\\Steam\\steamapps/libraryfolders.vdf"
    );
    assert_eq!(Steam::library_folders_file(Platform::Unix, ""), "steamapps/libraryfolders.vdf");
}

#[test]
fn manifest_names() {
    assert_eq!(Steam::manifest_id("appmanifest_2066020.acf"), Some("2066020".to_string()));
    assert_eq!(Steam::manifest_id("appmanifest_0.acf"), Some("0".to_string()));
    assert_eq!(Steam::manifest_id("appmanifest_007.acf"), Some("7".to_string()));
    assert_eq!(Steam::manifest_id("appmanifest_4294967295.acf"), Some("4294967295".to_string()));
    assert_eq!(Steam::manifest_id("appmanifest_4294967296.acf"), None);
    assert_eq!(Steam::manifest_id("appmanifest_.acf"), None);
    assert_eq!(Steam::manifest_id("appmanifest_12a.acf"), None);
    assert_eq!(Steam::manifest_id("appmanifest_12.acf.bak"), None);
    assert_eq!(Steam::manifest_id("xappmanifest_12.acf"), None);
    assert_eq!(Steam::manifest_id("appmanifest_12"), None);
    assert_eq!(Steam::manifest_id("appmanifest.acf"), None);
    assert_eq!(Steam::manifest_id("libraryfolders.vdf"), None);
    assert_eq!(Steam::manifest_id(""), None);
}

#[test]
fn manifest_paths() {
    assert_eq!(Steam::manifest_dir(Platform::Unix, "/lib"), "/lib/steamapps");
    assert_eq!(
        Steam::manifest_path(Platform::Unix, "/lib", "42"),
        "/lib/steamapps/appmanifest_42.acf"
    );
    assert_eq!(
        Steam::manifest_path(Platform::Windows, "D:\\Lib", "42"),
        "D:\\Lib\\steamapps\\appmanifest_42.acf"
    );
}

#[test]
fn manifest_missing_name_or_installdir_gives_no_game() {
    let both = "\"name\" \"A Game\"\n\"installdir\" \"AGame\"\n";
    let game = Steam::game_from_manifest(Platform::Unix, "/lib", "5", both).unwrap();
    assert_eq!(game.id, "5");
    assert_eq!(game.name, "A Game");
    assert_eq!(game.path, "/lib/steamapps/common/AGame");
    assert!(Steam::game_from_manifest(Platform::Unix, "/lib", "5", "\"name\" \"A Game\"\n").is_none());
    assert!(Steam::game_from_manifest(Platform::Unix, "/lib", "5", "\"installdir\" \"AGame\"\n").is_none());
    assert!(Steam::game_from_manifest(Platform::Unix, "/lib", "5", "").is_none());
    assert!(Steam::game_from_manifest(Platform::Unix, "/lib", "5", "\"name\" \"\"\n\"installdir\" \"x\"").is_none());
}

#[test]
fn last_name_line_wins() {
    let text = "\"name\" \"First\"\n\"installdir\" \"d\"\n\"name\" \"Second\"\n";
    let game = Steam::game_from_manifest(Platform::Unix, "/lib", "5", text).unwrap();
    assert_eq!(game.name, "Second");
}

#[test]
fn scan_skips_what_is_no_manifest_and_goes_on_after_failures() {
    let disk = Disk {
        dirs: vec![
            (
                "/one/steamapps".to_string(),
                vec![
                    dir("common"),
                    file("libraryfolders.vdf"),
                    dir("appmanifest_1.acf"),
                    file("appmanifest_10.acf"),
                    file("appmanifest_20.acf"),
                    file("appmanifest_30.acf"),
                    file("appmanifest_x.acf"),
                ],
            ),
            ("/three/steamapps".to_string(), vec![file("appmanifest_40.acf")]),
            ("/four/steamapps".to_string(), vec![]),
        ],
        files: vec![
            ("/one/steamapps/appmanifest_10.acf".to_string(), "\"name\" \"Ten\"\n\"installdir\" \"ten\"\n".to_string()),
            ("/one/steamapps/appmanifest_20.acf".to_string(), "\"name\" \"Twenty\"\n".to_string()),
            ("/three/steamapps/appmanifest_40.acf".to_string(), "\"installdir\" \"forty\"\n\"name\" \"Forty\"".to_string()),
        ],
    };
    let folders = vec!["/one".to_string(), "/two".to_string(), "/three".to_string(), "/four".to_string()];
    let scan = Steam::iterate_games(Platform::Unix, Some(folders)).unwrap();
    let (games, asked) = run(scan, &disk);
    assert_eq!(
        asked,
        vec![
            "ListDir(\"/one/steamapps\")",
            "ReadFile(\"/one/steamapps/appmanifest_10.acf\")",
            "ReadFile(\"/one/steamapps/appmanifest_20.acf\")",
            "ReadFile(\"/one/steamapps/appmanifest_30.acf\")",
            "ListDir(\"/two/steamapps\")",
            "ListDir(\"/three/steamapps\")",
            "ReadFile(\"/three/steamapps/appmanifest_40.acf\")",
            "ListDir(\"/four/steamapps\")",
        ]
    );
    let found: Vec<(String, String, String)> =
        games.into_iter().map(|g| (g.id, g.name, g.path)).collect();
    assert_eq!(
        found,
        vec![
            ("10".to_string(), "Ten".to_string(), "/one/steamapps/common/ten".to_string()),
            ("40".to_string(), "Forty".to_string(), "/three/steamapps/common/forty".to_string()),
        ]
    );
}

#[test]
fn scan_of_no_folders_is_done_at_once() {
    let scan = Steam::iterate_games(Platform::Unix, Some(vec![])).unwrap();
    assert!(scan.is_done());
    assert!(matches!(scan.next(), ScanRequest::Done));
    assert!(scan.games().is_empty());
}

#[test]
fn scan_ignores_an_answer_it_did_not_ask_for() {
    let scan = Steam::iterate_games(Platform::Unix, Some(vec!["/a".to_string()])).unwrap();
    let scan = scan.step(ScanAnswer::Content(Some("\"name\" \"x\"\n\"installdir\" \"y\"".to_string())));
    assert_eq!(format!("{:?}", scan.next()), "ListDir(\"/a/steamapps\")");
    let scan = scan.step(ScanAnswer::Listing(Some(vec![file("appmanifest_1.acf")])));
    let scan = scan.step(ScanAnswer::Listing(None));
    assert_eq!(format!("{:?}", scan.next()), "ReadFile(\"/a/steamapps/appmanifest_1.acf\")");
    let scan = scan.step(ScanAnswer::Content(None));
    assert!(scan.is_done());
    let scan = scan.step(ScanAnswer::Listing(None));
    assert!(scan.is_done());
}

#[test]
fn folder_listed_twice_gives_its_game_twice() {
    let folders = Steam::get_library_folders(&Some("\"path\" \"/l\"\n\"path\" \"/l\"".to_string()));
    assert_eq!(folders, Some(vec!["/l".to_string(), "/l".to_string()]));
    let disk = Disk {
        dirs: vec![("/l/steamapps".to_string(), vec![file("appmanifest_7.acf")])],
        files: vec![(
            "/l/steamapps/appmanifest_7.acf".to_string(),
            "\"name\" \"G\"\n\"installdir\" \"g\"\n".to_string(),
        )],
    };
    let (games, _) = run(Steam::iterate_games(Platform::Unix, folders).unwrap(), &disk);
    let found: Vec<(String, String, String)> =
        games.into_iter().map(|g| (g.id, g.name, g.path)).collect();
    let one = ("7".to_string(), "G".to_string(), "/l/steamapps/common/g".to_string());
    assert_eq!(found, vec![one.clone(), one]);
}

#[test]
fn listing_without_a_manifest_gives_no_game() {
    let disk = Disk {
        dirs: vec![(
            "/l/steamapps".to_string(),
            vec![
                dir("common"),
                file("libraryfolders.vdf"),
                file("appmanifest_abc.acf"),
                dir("appmanifest_5.acf"),
            ],
        )],
        files: vec![(
            "/l/steamapps/appmanifest_abc.acf".to_string(),
            "\"name\" \"G\"\n\"installdir\" \"g\"\n".to_string(),
        )],
    };
    let scan = Steam::iterate_games(Platform::Unix, Some(vec!["/l".to_string()])).unwrap();
    let (games, asked) = run(scan, &disk);
    assert!(games.is_empty());
    assert_eq!(asked, vec!["ListDir(\"/l/steamapps\")"]);
}

#[test]
fn manifest_without_a_name_is_left_out_whatever_the_order() {
    let files = vec![
        ("/l/steamapps/appmanifest_1.acf".to_string(), "\"installdir\" \"x\"".to_string()),
        ("/l/steamapps/appmanifest_2.acf".to_string(), "\"name\" \"G\"\n\"installdir\" \"g\"".to_string()),
    ];
    for listing in [["appmanifest_1.acf", "appmanifest_2.acf"], ["appmanifest_2.acf", "appmanifest_1.acf"]] {
        let disk = Disk {
            dirs: vec![("/l/steamapps".to_string(), listing.iter().map(|n| file(n)).collect())],
            files: files.clone(),
        };
        let scan = Steam::iterate_games(Platform::Unix, Some(vec!["/l".to_string()])).unwrap();
        let (games, _) = run(scan, &disk);
        assert_eq!(games.len(), 1);
        assert_eq!(games[0].id, "2");
        assert_eq!(games[0].name, "G");
        assert_eq!(games[0].path, "/l/steamapps/common/g");
    }
}
