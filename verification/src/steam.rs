//! Finding the games of a Steam installation: its library folders, the
//! application manifests in each of them, and the game that a manifest
//! describes.

use vstd::prelude::*;
use crate::decimal::{decimal, decimal_of, parse_number, readable};
use crate::paths::{join, joined, Platform};
use crate::text::{
    begins_with, chars_of, append, ends_with, finishes_with, starts_with, string_of, texts,
};
use crate::vdf::{
    collapse, collapse_backslashes, entry_line, free_of, law_entry_line_carries_its_value,
    lemma_first_line, lemma_only_line, lemma_return_adds_no_mention, lemma_return_is_immaterial,
    lines, mentions, scan, values, values_in, without_return,
};

verus! {

/// An installed game: its application id, its display name and the directory
/// it is installed in.
#[derive(Debug)]
pub struct SteamGame {
    pub id: String,
    pub name: String,
    pub path: String,
}

/// A game as plain text.
pub struct GameView {
    pub id: Seq<char>,
    pub name: Seq<char>,
    pub path: Seq<char>,
}

impl View for SteamGame {
    type V = GameView;

    open spec fn view(&self) -> GameView {
        GameView { id: self.id@, name: self.name@, path: self.path@ }
    }
}

impl DeepView for SteamGame {
    type V = GameView;

    open spec fn deep_view(&self) -> GameView {
        self@
    }
}

/// The entry point for everything that concerns the Steam installation.
pub struct Steam;

/// The file, under the installation root `root`, that lists the library
/// folders.
pub open spec fn library_file(platform: Platform, root: Seq<char>) -> Seq<char> {
    joined(platform, root, "steamapps/libraryfolders.vdf"@)
}

/// The folders that the scanned values name: each value with its doubled
/// backslashes collapsed, the empty ones left out.
pub open spec fn folders_of(found: Seq<Seq<char>>) -> Seq<Seq<char>>
    decreases found.len(),
{
    if found.len() == 0 {
        Seq::empty()
    } else if collapse(found[0]).len() > 0 {
        seq![collapse(found[0])] + folders_of(found.skip(1))
    } else {
        folders_of(found.skip(1))
    }
}

/// The library folders that the library-folders file `text` names, in the
/// order of the file.
pub open spec fn library_folders(text: Seq<char>) -> Seq<Seq<char>> {
    folders_of(values(text, "path"@))
}

/// The directory of `folder` that holds the application manifests.
pub open spec fn apps_dir(platform: Platform, folder: Seq<char>) -> Seq<char> {
    joined(platform, folder, "steamapps"@)
}

/// The name of the manifest file of the application `id`.
pub open spec fn manifest_name(id: Seq<char>) -> Seq<char> {
    "appmanifest_"@ + id + ".acf"@
}

/// The application id that a file name carries: the name is `appmanifest_`,
/// a decimal numeral that fits 32 bits, and `.acf`; the id is that number in
/// its shortest form.
pub open spec fn manifest_id(name: Seq<char>) -> Option<Seq<char>> {
    let head = "appmanifest_"@;
    let tail = ".acf"@;
    if name.len() >= head.len() + tail.len() && begins_with(name, head) && finishes_with(
        name,
        tail,
    ) {
        match readable(name.subrange(head.len() as int, name.len() - tail.len())) {
            Some(n) => Some(decimal(n as nat)),
            None => None,
        }
    } else {
        None
    }
}

/// The manifest file of the application `id` in the library folder `folder`.
pub open spec fn manifest_file(platform: Platform, folder: Seq<char>, id: Seq<char>) -> Seq<char> {
    joined(platform, apps_dir(platform, folder), manifest_name(id))
}

/// The value of the last relevant line, or the empty text when no line was
/// relevant.
pub open spec fn last_of(found: Seq<Seq<char>>) -> Seq<char> {
    if found.len() == 0 {
        Seq::empty()
    } else {
        found.last()
    }
}

/// The directory that the game with install directory `dir` lives in.
pub open spec fn install_path(platform: Platform, folder: Seq<char>, dir: Seq<char>) -> Seq<char> {
    joined(platform, joined(platform, apps_dir(platform, folder), "common"@), dir)
}

/// The game that the manifest `text` of application `id` in `folder`
/// describes; none when the manifest gives no name or no install directory.
pub open spec fn game_of(
    platform: Platform,
    folder: Seq<char>,
    id: Seq<char>,
    text: Seq<char>,
) -> Option<GameView> {
    let name = last_of(values(text, "name"@));
    let dir = last_of(values(text, "installdir"@));
    if name.len() == 0 || dir.len() == 0 {
        None
    } else {
        Some(GameView { id, name, path: install_path(platform, folder, dir) })
    }
}

/// The last of `found`, or the empty text.
fn last_text(found: &Vec<Vec<char>>) -> (out: Vec<char>)
    ensures
        out@ == last_of(texts(found@)),
{
    if found.len() == 0 {
        Vec::new()
    } else {
        found[found.len() - 1].clone()
    }
}

impl Steam {
    /// The file to read for the library folders of the installation at
    /// `path`.
    pub fn library_folders_file(platform: Platform, path: &str) -> (out: String)
        ensures
            out@ == library_file(platform, path@),
    {
        let root = chars_of(path);
        let part = chars_of("steamapps/libraryfolders.vdf");
        string_of(&join(platform, &root, &part))
    }

    /// The library folders named by the library-folders file, whose text is
    /// `file`; `None` when the file could not be read.
    pub fn get_library_folders(file: &Option<String>) -> (out: Option<Vec<String>>)
        ensures
            out.deep_view() == match *file {
                Some(text) => Some(library_folders(text@)),
                None => None,
            },
    {
        match file {
            None => None,
            Some(text) => {
                let found = scan(&chars_of(text.as_str()), &chars_of("path"));
                let mut out: Vec<String> = Vec::new();
                let mut i: usize = 0;
                proof {
                    assert(texts(found@).skip(0) =~= texts(found@));
                    assert(out.deep_view() + folders_of(texts(found@)) =~= folders_of(
                        texts(found@),
                    ));
                }
                while i < found.len()
                    invariant
                        i <= found.len(),
                        folders_of(texts(found@)) == out.deep_view() + folders_of(
                            texts(found@).skip(i as int),
                        ),
                    decreases found.len() - i,
                {
                    let ghost rest = texts(found@).skip(i as int);
                    let ghost done = out.deep_view();
                    let folder = collapse_backslashes(&found[i]);
                    proof {
                        assert(rest.skip(1) =~= texts(found@).skip(i + 1));
                        assert(rest[0] == found@[i as int]@);
                    }
                    if folder.len() > 0 {
                        let s = string_of(&folder);
                        out.push(s);
                        proof {
                            assert(out.deep_view() =~= done + seq![collapse(rest[0])]);
                        }
                    }
                    i += 1;
                }
                proof {
                    assert(folders_of(texts(found@).skip(i as int)) =~= Seq::<
                        Seq<char>,
                    >::empty());
                }
                Some(out)
            },
        }
    }

    /// The directory to list for the manifests of the library folder
    /// `folder`.
    pub fn manifest_dir(platform: Platform, folder: &str) -> (out: String)
        ensures
            out@ == apps_dir(platform, folder@),
    {
        string_of(&join(platform, &chars_of(folder), &chars_of("steamapps")))
    }

    /// The application id that the file name `name` carries, if it is the
    /// name of a manifest.
    pub fn manifest_id(name: &str) -> (out: Option<String>)
        ensures
            out.deep_view() == manifest_id(name@),
    {
        let chars = chars_of(name);
        let head = chars_of("appmanifest_");
        let tail = chars_of(".acf");
        if chars.len() < head.len() || chars.len() - head.len() < tail.len() {
            return None;
        }
        if !starts_with(&chars, &head) || !ends_with(&chars, &tail) {
            return None;
        }
        match parse_number(&chars, head.len(), chars.len() - tail.len()) {
            Some(n) => Some(string_of(&decimal_of(n as u64))),
            None => None,
        }
    }

    /// The manifest file to read for the application `id` of the library
    /// folder `folder`.
    pub fn manifest_path(platform: Platform, folder: &str, id: &str) -> (out: String)
        ensures
            out@ == manifest_file(platform, folder@, id@),
    {
        let dir = join(platform, &chars_of(folder), &chars_of("steamapps"));
        let name = append(&append(&chars_of("appmanifest_"), &chars_of(id)), &chars_of(".acf"));
        string_of(&join(platform, &dir, &name))
    }

    /// The game that the manifest `text` of application `id` in `folder`
    /// describes.
    pub fn game_from_manifest(platform: Platform, folder: &str, id: &str, text: &str) -> (out:
        Option<SteamGame>)
        ensures
            out.deep_view() == game_of(platform, folder@, id@, text@),
    {
        let chars = chars_of(text);
        let name = last_text(&scan(&chars, &chars_of("name")));
        let dir = last_text(&scan(&chars, &chars_of("installdir")));
        if name.len() == 0 || dir.len() == 0 {
            return None;
        }
        let apps = join(platform, &chars_of(folder), &chars_of("steamapps"));
        let common = join(platform, &apps, &chars_of("common"));
        let path = join(platform, &common, &dir);
        Some(SteamGame { id: string_of(&chars_of(id)), name: string_of(&name), path: string_of(&path) })
    }
}

/// One line of a well-formed library-folders file.
pub enum Row {
    /// A line that names a folder: `"path"` and, between quotes, the folder
    /// as the file writes it.
    Folder { indent: Seq<char>, gap: Seq<char>, raw: Seq<char>, tail: Seq<char> },
    /// Any other line.
    Other { line: Seq<char> },
}

impl Row {
    /// The line as it stands in the file, without its line feed.
    pub open spec fn line(self) -> Seq<char> {
        match self {
            Row::Folder { indent, gap, raw, tail } => entry_line(indent, "path"@, gap, raw, tail),
            Row::Other { line } => line,
        }
    }

    /// A line that names a folder holds no quotes but the four around the
    /// key and the value, and its value is not empty; a line that names none
    /// does not hold the quoted key. No line holds a line feed.
    pub open spec fn well_formed(self) -> bool {
        match self {
            Row::Folder { indent, gap, raw, tail } => {
                &&& free_of(indent, '"')
                &&& free_of(gap, '"')
                &&& free_of(raw, '"')
                &&& raw.len() > 0
                &&& free_of(self.line(), '\n')
            },
            Row::Other { line } => !mentions(line, "path"@) && free_of(line, '\n'),
        }
    }
}

/// The file that holds `rows`, a line feed after each of them; the line
/// feed after the last one is there only in a file that is `closed`.
pub open spec fn file_of(rows: Seq<Row>, closed: bool) -> Seq<char>
    decreases rows.len(),
{
    if rows.len() == 0 {
        Seq::empty()
    } else if rows.len() == 1 && !closed {
        rows[0].line()
    } else {
        rows[0].line() + seq!['\n'] + file_of(rows.skip(1), closed)
    }
}

/// The folders that `rows` name, as the file writes them.
pub open spec fn raw_folders(rows: Seq<Row>) -> Seq<Seq<char>>
    decreases rows.len(),
{
    if rows.len() == 0 {
        Seq::empty()
    } else {
        match rows[0] {
            Row::Folder { raw, .. } => seq![raw] + raw_folders(rows.skip(1)),
            Row::Other { .. } => raw_folders(rows.skip(1)),
        }
    }
}

/// Collapsing a text that is not empty leaves a text that is not empty.
proof fn lemma_collapse_keeps_something(s: Seq<char>)
    requires
        s.len() > 0,
    ensures
        collapse(s).len() > 0,
{
}

/// The folders that a well-formed library-folders file yields are the
/// values of its folder lines: as many as there are such lines, in the order
/// of the file, each without the quotes around it and with its doubled
/// backslashes collapsed. This holds whether or not the last line of the
/// file ends in a line feed.
pub proof fn law_folders_of_well_formed_file(rows: Seq<Row>, closed: bool)
    requires
        forall|i: int| 0 <= i < rows.len() ==> (#[trigger] rows[i]).well_formed(),
    ensures
        library_folders(file_of(rows, closed)).len() == raw_folders(rows).len(),
        forall|k: int|
            0 <= k < raw_folders(rows).len() ==> library_folders(file_of(rows, closed))[k]
                == collapse(#[trigger] raw_folders(rows)[k]),
    decreases rows.len(),
{
    reveal_strlit("path");
    let key = "path"@;
    let none = Seq::<Seq<char>>::empty();
    if rows.len() == 1 && !closed {
        let row = rows[0];
        let line = row.line();
        assert(row.well_formed());
        assert(raw_folders(rows.skip(1)) =~= none);
        lemma_only_line(line);
        assert(seq![line].skip(1) =~= none);
        assert(values_in(none, key) =~= none);
        assert(folders_of(none) =~= none);
        match row {
            Row::Folder { indent, gap, raw, tail } => {
                law_entry_line_carries_its_value(indent, key, gap, raw, tail);
                lemma_collapse_keeps_something(raw);
                assert(line.len() > 0);
                assert(values(line, key) =~= seq![raw]);
                assert(seq![raw].skip(1) =~= none);
                assert(library_folders(line) =~= seq![collapse(raw)]);
                assert(raw_folders(rows) =~= seq![raw]);
            },
            Row::Other { line } => {
                assert(values(line, key) =~= none);
                assert(raw_folders(rows) =~= none);
            },
        }
    } else if rows.len() > 0 {
        let row = rows[0];
        let rest = rows.skip(1);
        assert(row.well_formed());
        assert forall|i: int| 0 <= i < rest.len() implies (#[trigger] rest[i]).well_formed() by {
            assert(rest[i] == rows[i + 1]);
        }
        law_folders_of_well_formed_file(rest, closed);
        let line = row.line();
        let short = without_return(line);
        let later = lines(file_of(rest, closed));
        lemma_first_line(line, file_of(rest, closed));
        assert((seq![short] + later).skip(1) =~= later);
        let found = values(file_of(rest, closed), key);
        match row {
            Row::Folder { indent, gap, raw, tail } => {
                lemma_return_is_immaterial(indent, key, gap, raw, tail);
                let cut = choose|cut: Seq<char>| #[trigger]
                    entry_line(indent, key, gap, raw, cut) == short;
                law_entry_line_carries_its_value(indent, key, gap, raw, cut);
                lemma_collapse_keeps_something(raw);
                assert((seq![raw] + found).skip(1) =~= found);
                assert(values(file_of(rows, closed), key) == seq![raw] + found);
                assert(library_folders(file_of(rows, closed)) == seq![collapse(raw)] + folders_of(
                    found,
                ));
                let tail_raws = raw_folders(rest);
                assert forall|k: int| 0 <= k < raw_folders(rows).len() implies library_folders(
                    file_of(rows, closed),
                )[k] == collapse(#[trigger] raw_folders(rows)[k]) by {
                    if k > 0 {
                        assert(raw_folders(rows)[k] == tail_raws[k - 1]);
                    }
                }
            },
            Row::Other { line } => {
                lemma_return_adds_no_mention(line, key);
            },
        }
    }
}

} // verus!
