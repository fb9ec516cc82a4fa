//! Finding the Steam installation: in the registry on Windows, below the
//! user's home directory elsewhere.

use vstd::prelude::*;
use crate::paths::{join, joined, Platform};
use crate::steam::Steam;
use crate::text::{chars_of, copy_of, string_of};

verus! {

/// The view of the registry that a key is opened in.
#[derive(Debug, Clone, Copy, PartialEq, Eq)]
pub enum RegistryView {
    /// The view of 32-bit programs.
    Bits32,
    /// The view of 64-bit programs.
    Bits64,
}

/// What the search needs next.
#[derive(Debug)]
pub enum LocateRequest {
    /// Open the key `key` of the local machine for reading, in the view
    /// `view`.
    OpenKey { key: String, view: RegistryView },
    /// Read the text value `name` of the key that was opened.
    ReadValue { name: String },
    /// Whether `path` exists.
    Exists { path: String },
    /// Nothing: the search has ended, with the installation's directory if
    /// it was found.
    Done(Option<String>),
}

/// A search request as plain text.
pub enum LocateRequestView {
    OpenKey { key: Seq<char>, view: RegistryView },
    ReadValue { name: Seq<char> },
    Exists { path: Seq<char> },
    Done(Option<Seq<char>>),
}

impl View for LocateRequest {
    type V = LocateRequestView;

    open spec fn view(&self) -> LocateRequestView {
        match self {
            LocateRequest::OpenKey { key, view } => LocateRequestView::OpenKey {
                key: key@,
                view: *view,
            },
            LocateRequest::ReadValue { name } => LocateRequestView::ReadValue { name: name@ },
            LocateRequest::Exists { path } => LocateRequestView::Exists { path: path@ },
            LocateRequest::Done(path) => LocateRequestView::Done(path.deep_view()),
        }
    }
}

/// The outcome of a search request.
#[derive(Debug)]
pub enum LocateAnswer {
    /// Whether the key could be opened.
    Opened(bool),
    /// The value, if the key has it and it is a text.
    Value(Option<String>),
    /// Whether the path exists.
    Found(bool),
}

/// A search answer as plain text.
pub enum LocateAnswerView {
    Opened(bool),
    Value(Option<Seq<char>>),
    Found(bool),
}

impl View for LocateAnswer {
    type V = LocateAnswerView;

    open spec fn view(&self) -> LocateAnswerView {
        match self {
            LocateAnswer::Opened(yes) => LocateAnswerView::Opened(*yes),
            LocateAnswer::Value(value) => LocateAnswerView::Value(value.deep_view()),
            LocateAnswer::Found(yes) => LocateAnswerView::Found(*yes),
        }
    }
}

/// A search in progress.
#[derive(Debug)]
pub enum Locate {
    /// The key of 32-bit programs is tried.
    FirstKey,
    /// The key of 64-bit programs is tried.
    SecondKey,
    /// The installation's directory is read from the key that was opened.
    Reading,
    /// The directory `candidate` is looked for.
    Probing { candidate: String },
    /// The search has ended.
    Ended { path: Option<String> },
}

/// The state of a search as plain text.
pub enum LocateView {
    FirstKey,
    SecondKey,
    Reading,
    Probing { candidate: Seq<char> },
    Ended { path: Option<Seq<char>> },
}

impl View for Locate {
    type V = LocateView;

    open spec fn view(&self) -> LocateView {
        match self {
            Locate::FirstKey => LocateView::FirstKey,
            Locate::SecondKey => LocateView::SecondKey,
            Locate::Reading => LocateView::Reading,
            Locate::Probing { candidate } => LocateView::Probing { candidate: candidate@ },
            Locate::Ended { path } => LocateView::Ended { path: path.deep_view() },
        }
    }
}

impl LocateView {
    /// The search on `platform` before anything was done, for a user whose
    /// home directory is `home`: on Windows the registry is asked; elsewhere
    /// the installation is expected below the home directory, and is not
    /// found when there is no home directory.
    pub open spec fn start(platform: Platform, home: Option<Seq<char>>) -> LocateView {
        match platform {
            Platform::Windows => LocateView::FirstKey,
            Platform::Unix => match home {
                Some(dir) => LocateView::Probing {
                    candidate: joined(platform, dir, ".steam/steam"@),
                },
                None => LocateView::Ended { path: None },
            },
        }
    }

    /// What the search needs next.
    pub open spec fn request(self) -> LocateRequestView {
        match self {
            LocateView::FirstKey => LocateRequestView::OpenKey {
                key: "SOFTWARE\\WOW6432Node\\Valve\\Steam"@,
                view: RegistryView::Bits32,
            },
            LocateView::SecondKey => LocateRequestView::OpenKey {
                key: "SOFTWARE\\Valve\\Steam"@,
                view: RegistryView::Bits64,
            },
            LocateView::Reading => LocateRequestView::ReadValue { name: "InstallPath"@ },
            LocateView::Probing { candidate } => LocateRequestView::Exists { path: candidate },
            LocateView::Ended { path } => LocateRequestView::Done(path),
        }
    }

    /// The search after it was given `answer`. The second key is tried only
    /// when the first could not be opened; the value is read from the key
    /// that was opened; a directory counts only when it exists. An answer
    /// that does not fit the state changes nothing.
    pub open spec fn step(self, answer: LocateAnswerView) -> LocateView {
        match (self, answer) {
            (LocateView::FirstKey, LocateAnswerView::Opened(yes)) => if yes {
                LocateView::Reading
            } else {
                LocateView::SecondKey
            },
            (LocateView::SecondKey, LocateAnswerView::Opened(yes)) => if yes {
                LocateView::Reading
            } else {
                LocateView::Ended { path: None }
            },
            (LocateView::Reading, LocateAnswerView::Value(value)) => LocateView::Ended {
                path: value,
            },
            (LocateView::Probing { candidate }, LocateAnswerView::Found(yes)) => if yes {
                LocateView::Ended { path: Some(candidate) }
            } else {
                LocateView::Ended { path: None }
            },
            _ => self,
        }
    }
}

/// The home directory of the user who runs the program, as text; `None`
/// when there is none or it is not valid Unicode. Stands for
/// `dirs::home_dir`, whose result depends on the environment: nothing is
/// claimed of it.
#[verifier::external_body]
fn home_dir() -> (out: Option<String>) {
    match dirs::home_dir() {
        Some(home) => home.into_os_string().into_string().ok(),
        None => None,
    }
}

impl Steam {
    /// The search for the installation on `platform`, for a user whose home
    /// directory is `home`, before anything was done.
    pub fn locate_from(platform: Platform, home: Option<String>) -> (out: Locate)
        ensures
            out@ == LocateView::start(platform, home.deep_view()),
    {
        match platform {
            Platform::Windows => Locate::FirstKey,
            Platform::Unix => match home {
                Some(dir) => Locate::Probing {
                    candidate: string_of(
                        &join(platform, &chars_of(dir.as_str()), &chars_of(".steam/steam")),
                    ),
                },
                None => Locate::Ended { path: None },
            },
        }
    }

    /// The search for the installation on `platform`, for the user who runs
    /// the program, before anything was done.
    pub fn get_steam_path(platform: Platform) -> (out: Locate)
        ensures
            exists|home: Option<Seq<char>>| out@ == LocateView::start(platform, home),
    {
        let home = match platform {
            Platform::Windows => None,
            Platform::Unix => home_dir(),
        };
        let ghost seen = home.deep_view();
        let out = Self::locate_from(platform, home);
        assert(out@ == LocateView::start(platform, seen));
        out
    }
}

impl Locate {
    /// What the search needs next.
    pub fn next(&self) -> (out: LocateRequest)
        ensures
            out@ == self@.request(),
    {
        match self {
            Locate::FirstKey => LocateRequest::OpenKey {
                key: copy_of("SOFTWARE\\WOW6432Node\\Valve\\Steam"),
                view: RegistryView::Bits32,
            },
            Locate::SecondKey => LocateRequest::OpenKey {
                key: copy_of("SOFTWARE\\Valve\\Steam"),
                view: RegistryView::Bits64,
            },
            Locate::Reading => LocateRequest::ReadValue { name: copy_of("InstallPath") },
            Locate::Probing { candidate } => LocateRequest::Exists { path: candidate.clone() },
            Locate::Ended { path } => LocateRequest::Done(
                match path {
                    Some(p) => Some(p.clone()),
                    None => None,
                },
            ),
        }
    }

    /// The search after it was given `answer`.
    pub fn step(self, answer: LocateAnswer) -> (out: Locate)
        ensures
            out@ == self@.step(answer@),
    {
        match (self, answer) {
            (Locate::FirstKey, LocateAnswer::Opened(yes)) => if yes {
                Locate::Reading
            } else {
                Locate::SecondKey
            },
            (Locate::SecondKey, LocateAnswer::Opened(yes)) => if yes {
                Locate::Reading
            } else {
                Locate::Ended { path: None }
            },
            (Locate::Reading, LocateAnswer::Value(value)) => Locate::Ended { path: value },
            (Locate::Probing { candidate }, LocateAnswer::Found(yes)) => if yes {
                Locate::Ended { path: Some(candidate) }
            } else {
                Locate::Ended { path: None }
            },
            (state, _) => state,
        }
    }
}

} // verus!
