//! File-system paths as text: joining a directory and a relative name the way
//! the platform writes it.

use vstd::prelude::*;
use crate::text::append;

verus! {

/// The family of operating systems whose conventions are followed.
#[derive(Clone, Copy, Debug)]
pub enum Platform {
    Windows,
    Unix,
}

impl Platform {
    /// The character that this platform writes between a directory and what
    /// is in it.
    pub open spec fn separator(self) -> char {
        match self {
            Platform::Windows => '\\',
            Platform::Unix => '/',
        }
    }

    /// Whether this platform reads `c` as a separator: the slash everywhere,
    /// the backslash on Windows too.
    pub open spec fn separates(self, c: char) -> bool {
        c == '/' || (self is Windows && c == '\\')
    }

    /// The character that this platform writes between a directory and what
    /// is in it.
    pub fn separator_char(&self) -> (c: char)
        ensures
            c == self.separator(),
    {
        match self {
            Platform::Windows => '\\',
            Platform::Unix => '/',
        }
    }

    /// Whether this platform reads `c` as a separator.
    pub fn is_separator(&self, c: char) -> (yes: bool)
        ensures
            yes == self.separates(c),
    {
        match self {
            Platform::Windows => c == '/' || c == '\\',
            Platform::Unix => c == '/',
        }
    }
}

/// `part` placed inside the directory `base`: one separator is written
/// between them unless `base` is empty or already ends with one.
pub open spec fn joined(platform: Platform, base: Seq<char>, part: Seq<char>) -> Seq<char> {
    if base.len() == 0 || platform.separates(base.last()) {
        base + part
    } else {
        base.push(platform.separator()) + part
    }
}

/// `part` placed inside the directory `base`.
pub fn join(platform: Platform, base: &Vec<char>, part: &Vec<char>) -> (out: Vec<char>)
    ensures
        out@ == joined(platform, base@, part@),
{
    if base.len() == 0 || platform.is_separator(base[base.len() - 1]) {
        append(base, part)
    } else {
        let mut sep: Vec<char> = Vec::new();
        sep.push(platform.separator_char());
        let head = append(base, &sep);
        assert(head@ =~= base@.push(platform.separator()));
        append(&head, part)
    }
}

} // verus!
