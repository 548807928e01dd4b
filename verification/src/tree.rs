//! What the library needs to know of a source tree. The caller looks at the
//! file system and records what it saw in these plain values.

use vstd::prelude::*;

verus! {

/// The outcome of looking for a marker file.
#[derive(Debug, Clone)]
pub enum Probe {
    /// The marker exists and is a regular file.
    File,
    /// Something of that name exists, but it is not a regular file.
    NotAFile,
    /// Nothing of that name exists.
    Absent,
    /// The file system refused the question; the text says why.
    Failed(String),
}

/// One entry of a directory listing.
#[derive(Debug, Clone)]
pub enum Entry {
    /// An entry whose name is text.
    Named { name: String, is_dir: bool },
    /// An entry whose name cannot be represented as text.
    Unnamed,
    /// An entry that could not be read; the text says why.
    Unreadable(String),
}

/// The outcome of listing a directory.
#[derive(Debug, Clone)]
pub enum Listing {
    /// The entries, in the order in which the file system gave them.
    Entries(Vec<Entry>),
    /// The directory could not be listed; the text says why.
    Failed(String),
}

/// The facts about a source tree that SDK detection consults.
#[derive(Debug, Clone)]
pub struct SourceTree {
    /// `go.mod` in the root.
    pub go_mod: Probe,
    /// `gradlew` in the root.
    pub gradlew: Probe,
    /// `pom.xml` in the root.
    pub pom_xml: Probe,
    /// The listing of the `cmd` directory.
    pub cmd: Listing,
}

} // verus!
