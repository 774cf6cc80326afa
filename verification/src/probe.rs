//! What the caller has found out about the local filesystem.

use vstd::prelude::*;
use vstd::string::*;

verus! {

/// What a path names on the local filesystem.
#[derive(Debug, Clone, Copy, PartialEq, Eq, Structural)]
pub enum PathKind {
    /// Nothing exists at the path.
    Missing,
    /// A regular file.
    File,
    /// A directory.
    Directory,
    /// Something that is neither, such as a device.
    Other,
}

/// One observation: the kind of one path.
#[derive(Debug, PartialEq, Eq)]
pub struct ProbeEntry {
    pub path: String,
    pub kind: PathKind,
}

/// A record of filesystem observations, made by the caller and read by the
/// download resolver, which itself never touches the filesystem.
///
/// A path that was never recorded counts as missing; where a path was recorded
/// more than once, the latest record holds.
#[derive(Debug, PartialEq, Eq)]
pub struct FilesystemProbe {
    entries: Vec<ProbeEntry>,
}

/// The kind that a sequence of observations gives for `path`.
pub open spec fn kind_in(facts: Seq<(Seq<char>, PathKind)>, path: Seq<char>) -> PathKind
    decreases facts.len(),
{
    if facts.len() == 0 {
        PathKind::Missing
    } else if facts.last().0 == path {
        facts.last().1
    } else {
        kind_in(facts.drop_last(), path)
    }
}

impl View for FilesystemProbe {
    type V = Seq<(Seq<char>, PathKind)>;

    closed spec fn view(&self) -> Seq<(Seq<char>, PathKind)> {
        Seq::new(self.entries@.len(), |i: int| (self.entries@[i].path@, self.entries@[i].kind))
    }
}

impl FilesystemProbe {
    /// A probe with no observation: every path counts as missing.
    pub fn new() -> (r: FilesystemProbe)
        ensures
            r@ == Seq::<(Seq<char>, PathKind)>::empty(),
    {
        FilesystemProbe { entries: Vec::new() }
    }

    /// Adds the observation that `path` names a `kind`.
    pub fn record(&mut self, path: String, kind: PathKind)
        ensures
            final(self)@ == old(self)@.push((path@, kind)),
    {
        self.entries.push(ProbeEntry { path, kind });
    }

    /// The number of observations recorded.
    pub fn len(&self) -> (r: usize)
        ensures
            r == self@.len(),
    {
        self.entries.len()
    }

    /// The kind recorded for `path`, `Missing` where none was.
    pub fn kind_of(&self, path: &str) -> (r: PathKind)
        ensures
            r == kind_in(self@, path@),
    {
        let wanted = String::from_str(path);
        let mut i: usize = self.entries.len();
        assert(self@.take(i as int) == self@);
        while i > 0
            invariant
                i <= self.entries@.len(),
                wanted@ == path@,
                kind_in(self@, path@) == kind_in(self@.take(i as int), path@),
            decreases i,
        {
            let entry = &self.entries[i - 1];
            proof {
                let seen = self@.take(i as int);
                assert(seen.drop_last() == self@.take(i - 1));
            }
            if entry.path == wanted {
                return entry.kind;
            }
            i -= 1;
        }
        PathKind::Missing
    }
}

} // verus!
