use soulstone_installer::decimal::{decimal_of, parse_number};
use soulstone_installer::paths::{join, Platform};
use soulstone_installer::selection::{confirms, is_whitespace};
use soulstone_installer::text::{
    chars_of, append, contains, copy_of, ends_with, find_from, glue, matches_at, same, same_text,
    slice_of, starts_with,
};
use soulstone_installer::vdf::{collapse_backslashes, piece_of, quote, scan, split_lines};

fn cs(s: &str) -> Vec<char> {
    s.chars().collect()
}

fn st(v: &Vec<char>) -> String {
    v.iter().collect()
}

const SAMPLES: [&str; 16] = [
    "",
    "\n",
    "\r\n",
    "a",
    "a\n",
    "a\r\n",
    "a\r",
    "a\nb",
    "a\n\nb\n",
    "\r\r\n\n\r",
    "one\r\ntwo\r\nthree",
    "\"path\"\t\t\"C:\\\\Games\"",
    "\t\"name\"\t\t\"Soulstone Survivors\"\r\n\t\"installdir\"\t\"Soulstone Survivors\"\r\n",
    "\"\"\"\"\"\"\"",
    "no quotes at all",
    "über \"straße\" \"日本語\" ✓",
];

#[test]
fn characters_of_a_string_and_back() {
    for s in SAMPLES {
        assert_eq!(chars_of(s), cs(s));
        assert_eq!(copy_of(s), s);
    }
    assert_eq!(glue("ab", "cd"), "abcd");
    assert_eq!(glue("", ""), "");
    assert_eq!(st(&append(&cs("ab"), &cs("cd"))), "abcd");
}

#[test]
fn searching_agrees_with_std() {
    let needles: [&str; 8] = ["", "a", "\"", "\"path\"", "\r\n", "th", "b\n", "Soulstone"];
    for s in SAMPLES {
        for n in needles {
            assert_eq!(contains(&cs(s), &cs(n)), s.contains(n), "{:?} in {:?}", n, s);
            assert_eq!(starts_with(&cs(s), &cs(n)), s.starts_with(n), "{:?} at start of {:?}", n, s);
            assert_eq!(ends_with(&cs(s), &cs(n)), s.ends_with(n), "{:?} at end of {:?}", n, s);
            assert_eq!(same(&cs(s), &cs(n)), s == n);
            assert_eq!(same_text(s, n), s == n);
        }
    }
    assert!(matches_at(&cs("abcabc"), &cs("bc"), 1));
    assert!(matches_at(&cs("abcabc"), &cs("bc"), 4));
    assert!(!matches_at(&cs("abcabc"), &cs("bc"), 5));
    assert!(!matches_at(&cs("abcabc"), &cs("bc"), 7));
    assert!(matches_at(&cs("abc"), &cs(""), 3));
    assert!(!matches_at(&cs("abc"), &cs(""), 4));
}

#[test]
fn first_position_of_a_character() {
    let s = cs("a\"b\"c");
    assert_eq!(find_from(&s, 0, '"'), 1);
    assert_eq!(find_from(&s, 1, '"'), 1);
    assert_eq!(find_from(&s, 2, '"'), 3);
    assert_eq!(find_from(&s, 4, '"'), 5);
    assert_eq!(find_from(&s, 5, '"'), 5);
    assert_eq!(find_from(&cs(""), 0, '"'), 0);
    assert_eq!(st(&slice_of(&s, 1, 4)), "\"b\"");
    assert_eq!(st(&slice_of(&s, 2, 2)), "");
}

#[test]
fn lines_agree_with_std() {
    for s in SAMPLES {
        let ours: Vec<String> = split_lines(&cs(s)).iter().map(st).collect();
        let theirs: Vec<String> = s.lines().map(|l| l.to_string()).collect();
        assert_eq!(ours, theirs, "lines of {:?}", s);
    }
    let ours: Vec<String> = split_lines(&cs("a\r\n\r\nb\r")).iter().map(st).collect();
    assert_eq!(ours, vec!["a", "", "b\r"]);
}

#[test]
fn pieces_agree_with_std_split() {
    for s in SAMPLES {
        for line in s.lines() {
            for n in 0usize..6 {
                let theirs = line.split('"').nth(n).unwrap_or("");
                assert_eq!(st(&piece_of(&cs(line), n)), theirs, "piece {} of {:?}", n, line);
            }
        }
    }
    assert_eq!(st(&piece_of(&cs("\t\"path\"\t\t\"C:\\\\Games\""), 3)), "C:\\\\Games");
    assert_eq!(st(&piece_of(&cs("\"path\" \"unclosed"), 3)), "unclosed");
    assert_eq!(st(&piece_of(&cs("\"path\""), 3)), "");
    assert_eq!(st(&piece_of(&cs("\"path\" \"\" tail"), 3)), "");
}

#[test]
fn doubled_backslashes_collapse_as_std_replace() {
    let inputs: [&str; 9] =
        ["", "\\", "\\\\", "\\\\\\", "\\\\\\\\", "C:\\\\Games\\\\Steam", "a\\b", "\\\\a\\\\\\b\\", "no"];
    for s in inputs {
        assert_eq!(st(&collapse_backslashes(&cs(s))), s.replace("\\\\", "\\"), "{:?}", s);
    }
    assert_eq!(st(&collapse_backslashes(&cs("C:\\\\Games"))), "C:\\Games");
    assert_eq!(st(&collapse_backslashes(&cs("\\\\\\"))), "\\\\");
}

#[test]
fn values_of_a_key() {
    assert_eq!(st(&quote(&cs("path"))), "\"path\"");
    let text = "\"x\"\n{\n\t\"path\"\t\"one\"\n\t\"label\"\t\"path\"\n\t\"path\"\n\"mypath\" \"no\"\n\"path\" \"two\" \"three\"\r\n}";
    let found: Vec<String> = scan(&cs(text), &cs("path")).iter().map(st).collect();
    assert_eq!(found, vec!["one", "path", "", "two"]);
    let found: Vec<String> = scan(&cs(text), &cs("label")).iter().map(st).collect();
    assert_eq!(found, vec!["path"]);
    assert!(scan(&cs(text), &cs("name")).is_empty());
    assert!(scan(&cs(""), &cs("path")).is_empty());
}

#[test]
fn decimal_numerals_agree_with_std() {
    let numbers: [u64; 12] =
        [0, 1, 9, 10, 11, 99, 100, 128, 2066020, 4294967295, 4294967296, 18446744073709551615];
    for n in numbers {
        assert_eq!(st(&decimal_of(n)), n.to_string());
    }
    let digits: [&str; 14] = [
        "0", "7", "007", "10", "2066020", "4294967295", "4294967296", "99999999999999999999999",
        "0000000000000000000000001", "", "12a", "a12", "-1", "１２",
    ];
    for d in digits {
        let chars = cs(d);
        let theirs = d.parse::<u32>().ok();
        assert_eq!(parse_number(&chars, 0, chars.len()), theirs, "{:?}", d);
    }
    let chars = cs("ab123cd");
    assert_eq!(parse_number(&chars, 2, 5), Some(123));
    assert_eq!(parse_number(&chars, 2, 2), None);
    assert_eq!(parse_number(&chars, 1, 5), None);
    assert_eq!(parse_number(&cs("+12"), 0, 3), None);
}

#[test]
fn joining_agrees_with_std_for_relative_names() {
    let bases: [&str; 6] = ["", "/", "/home/u", "/home/u/", "rel", "C:\\Games"];
    let parts: [&str; 5] = ["steamapps", "steamapps/libraryfolders.vdf", "", "a b", ".steam/steam"];
    for b in bases {
        for p in parts {
            let theirs = std::path::Path::new(b).join(p);
            assert_eq!(
                st(&join(Platform::Unix, &cs(b), &cs(p))),
                theirs.to_str().unwrap(),
                "{:?} joined with {:?}",
                b,
                p
            );
        }
    }
}

#[test]
fn joining_on_windows() {
    assert_eq!(st(&join(Platform::Windows, &cs("C:\\Games"), &cs("steamapps"))), "C:\\Games\\steamapps");
    assert_eq!(st(&join(Platform::Windows, &cs("C:\\Games\\"), &cs("steamapps"))), "C:\\Games\\steamapps");
    assert_eq!(st(&join(Platform::Windows, &cs("C:/Games/"), &cs("steamapps"))), "C:/Games/steamapps");
    assert_eq!(st(&join(Platform::Windows, &cs(""), &cs("steamapps"))), "steamapps");
    assert_eq!(st(&join(Platform::Unix, &cs("C:\\Games\\"), &cs("x"))), "C:\\Games\\/x");
    assert_eq!(Platform::Windows.separator_char(), '\\');
    assert_eq!(Platform::Unix.separator_char(), '/');
    assert!(Platform::Windows.is_separator('/'));
    assert!(Platform::Windows.is_separator('\\'));
    assert!(Platform::Unix.is_separator('/'));
    assert!(!Platform::Unix.is_separator('\\'));
}

#[test]
fn white_space_agrees_with_std() {
    let mut code: u32 = 0;
    while code <= 0x10ffff {
        if let Some(c) = char::from_u32(code) {
            assert_eq!(is_whitespace(c), c.is_whitespace(), "U+{:04X}", code);
        }
        code += 1;
    }
}

#[test]
fn only_a_lone_y_confirms() {
    let lines: [&str; 22] = [
        "y", "Y", "y\n", "Y\r\n", "  y  ", "\ty\t", "\u{a0}y\u{3000}", "", "\n", " ", "n", "N",
        "yes", "yy", "y y", "Yy", "ý", "Ｙ", "y.", "no y", "1", "y\0",
    ];
    for line in lines {
        assert_eq!(confirms(line), line.trim().to_lowercase() == "y", "{:?}", line);
    }
    assert!(confirms("y"));
    assert!(confirms(" Y\n"));
    assert!(!confirms("n"));
    assert!(!confirms(""));
    let mut code: u32 = 0;
    while code <= 0x10ffff {
        if let Some(c) = char::from_u32(code) {
            let line = c.to_string();
            assert_eq!(confirms(&line), line.trim().to_lowercase() == "y", "U+{:04X}", code);
        }
        code += 1;
    }
}

/// Every string over `alphabet` of at most `longest` characters.
fn strings_over(alphabet: &[char], longest: usize) -> Vec<String> {
    let mut all: Vec<String> = vec![String::new()];
    let mut from: usize = 0;
    let mut length: usize = 0;
    while length < longest {
        let upto: usize = all.len();
        let mut i: usize = from;
        while i < upto {
            for c in alphabet {
                let mut longer = all[i].clone();
                longer.push(*c);
                all.push(longer);
            }
            i += 1;
        }
        from = upto;
        length += 1;
    }
    all
}

#[test]
fn lines_agree_with_std_on_every_short_text() {
    for s in strings_over(&['a', '\r', '\n', '"'], 6) {
        let ours: Vec<String> = split_lines(&cs(&s)).iter().map(st).collect();
        let theirs: Vec<String> = s.lines().map(|l| l.to_string()).collect();
        assert_eq!(ours, theirs, "lines of {:?}", s);
    }
}

#[test]
fn pieces_agree_with_std_on_every_short_line() {
    for s in strings_over(&['a', '"', ' '], 7) {
        for n in 0usize..5 {
            let theirs = s.split('"').nth(n).unwrap_or("");
            assert_eq!(st(&piece_of(&cs(&s), n)), theirs, "piece {} of {:?}", n, s);
        }
    }
}

#[test]
fn collapse_agrees_with_std_on_every_short_text() {
    for s in strings_over(&['\\', 'a'], 10) {
        assert_eq!(st(&collapse_backslashes(&cs(&s))), s.replace("\\\\", "\\"), "{:?}", s);
    }
}

#[test]
fn folders_agree_with_a_scan_by_std_on_every_short_file() {
    for body in strings_over(&['"', '\\', '\n', 'p'], 6) {
        let text = format!("\"path\"{}", body);
        let mut theirs: Vec<String> = Vec::new();
        for line in text.lines() {
            if line.contains("\"path\"") {
                let path = line.split('"').nth(3).unwrap_or("").replace("\\\\", "\\");
                if !path.is_empty() {
                    theirs.push(path);
                }
            }
        }
        assert_eq!(
            soulstone_installer::steam::Steam::get_library_folders(&Some(text.clone())),
            Some(theirs),
            "{:?}",
            text
        );
    }
}
