//! Where a download is written.
//!
//! The resolver maps the file name that the server suggests and the
//! destination that the user gave onto one path, reading the filesystem only
//! through the observations recorded in a [`FilesystemProbe`].

use crate::error::{ErrorView, TransferError};
use crate::paths::{is_expansion_of, join, parent, path_joined, path_parent, tilde};
use crate::probe::{kind_in, FilesystemProbe, PathKind};
use crate::text::text_of;
use vstd::prelude::*;
use vstd::string::*;

verus! {

/// The path that a download is written to.
#[derive(Debug, PartialEq, Eq)]
pub struct DownloadTarget {
    /// The file to create or overwrite.
    pub path: String,
    /// The directory to create first, with its ancestors, where the file's
    /// directory does not exist yet.
    pub create_dir: Option<String>,
}

/// The mathematical value of a [`DownloadTarget`].
pub struct TargetView {
    pub path: Seq<char>,
    pub create_dir: Option<Seq<char>>,
}

impl View for DownloadTarget {
    type V = TargetView;

    open spec fn view(&self) -> TargetView {
        TargetView { path: self.path@, create_dir: text_of(self.create_dir) }
    }
}

/// The view of an outcome that carries a target.
pub open spec fn target_outcome(r: Result<DownloadTarget, TransferError>) -> Result<
    TargetView,
    ErrorView,
> {
    match r {
        Ok(target) => Ok(target@),
        Err(error) => Err(error@),
    }
}

/// The view of an outcome that carries a path.
pub open spec fn path_outcome(r: Result<String, TransferError>) -> Result<Seq<char>, ErrorView> {
    match r {
        Ok(path) => Ok(path@),
        Err(error) => Err(error@),
    }
}

/// The directory that holds `path`, where the path names one: a bare name
/// lies in the current directory and a root has none above it.
pub open spec fn directory_of(path: Seq<char>) -> Option<Seq<char>> {
    match path_parent(path) {
        Some(dir) => if dir.len() > 0 {
            Some(dir)
        } else {
            None
        },
        None => None,
    }
}

/// The kind of the directory that is to hold a path: what is recorded of it,
/// and `Missing` where the path names no directory.
pub open spec fn directory_kind(path: Seq<char>, facts: Seq<(Seq<char>, PathKind)>) -> PathKind {
    match directory_of(path) {
        Some(dir) => kind_in(facts, dir),
        None => PathKind::Missing,
    }
}

/// The path that a destination which was given stands for, by what it is:
///
/// - a directory: `inside`, the suggested name in that directory;
/// - a regular file: the destination itself;
/// - something else that exists: a failure;
/// - nothing there: the destination itself, provided that the directory
///   which is to hold it exists, or that it names none.
pub open spec fn placed(
    destination: Seq<char>,
    kind: PathKind,
    inside: Seq<char>,
    dir: Option<Seq<char>>,
    dir_kind: PathKind,
) -> Result<Seq<char>, ErrorView> {
    match kind {
        PathKind::Directory => Ok(inside),
        PathKind::File => Ok(destination),
        PathKind::Other => Err(ErrorView::InvalidDestination(destination)),
        PathKind::Missing => match dir {
            Some(dir) => if dir_kind == PathKind::Directory {
                Ok(destination)
            } else {
                Err(ErrorView::ParentMissing(dir))
            },
            None => Ok(destination),
        },
    }
}

/// The path that the destination stands for, before it is asked whether the
/// path is taken: with no destination, the suggested name in the current
/// directory; otherwise what [`placed`] says of the destination.
pub open spec fn located(
    suggested: Seq<char>,
    destination: Seq<char>,
    facts: Seq<(Seq<char>, PathKind)>,
) -> Result<Seq<char>, ErrorView> {
    if destination.len() == 0 {
        Ok(suggested)
    } else {
        placed(
            destination,
            kind_in(facts, destination),
            path_joined(destination, suggested),
            directory_of(destination),
            directory_kind(destination, facts),
        )
    }
}

/// The target at a located path, by what is there: a failure where something
/// exists and replacing was not asked for; otherwise the path, and with it
/// the directory that is to hold it where that does not exist yet.
pub open spec fn settled(
    path: Seq<char>,
    kind: PathKind,
    replace: bool,
    dir: Option<Seq<char>>,
    dir_kind: PathKind,
) -> Result<TargetView, ErrorView> {
    if kind != PathKind::Missing && !replace {
        Err(ErrorView::AlreadyExists(path))
    } else {
        Ok(
            TargetView {
                path,
                create_dir: if dir_kind == PathKind::Missing {
                    dir
                } else {
                    None
                },
            },
        )
    }
}

/// The target of a download: the located path, settled by what is there.
pub open spec fn resolved(
    suggested: Seq<char>,
    destination: Seq<char>,
    replace: bool,
    facts: Seq<(Seq<char>, PathKind)>,
) -> Result<TargetView, ErrorView> {
    match located(suggested, destination, facts) {
        Ok(path) => settled(
            path,
            kind_in(facts, path),
            replace,
            directory_of(path),
            directory_kind(path, facts),
        ),
        Err(error) => Err(error),
    }
}

/// A path, followed by the directory that holds it where it names one.
pub open spec fn with_directory(path: Seq<char>) -> Seq<Seq<char>> {
    match directory_of(path) {
        Some(dir) => seq![path, dir],
        None => seq![path],
    }
}

/// The paths whose kinds decide where a download is written.
pub open spec fn paths_to_probe(suggested: Seq<char>, destination: Seq<char>) -> Seq<Seq<char>> {
    if destination.len() == 0 {
        with_directory(suggested)
    } else {
        with_directory(destination) + with_directory(path_joined(destination, suggested))
    }
}

/// The texts of a sequence of strings.
pub open spec fn texts(strings: Seq<String>) -> Seq<Seq<char>> {
    Seq::new(strings.len(), |i: int| strings[i]@)
}

/// What the caller has to find out before a download can be resolved.
#[derive(Debug, PartialEq, Eq)]
pub struct ProbePlan {
    /// The destination, with a leading `~` expanded to the home directory.
    pub destination: String,
    /// The paths whose kinds are to be recorded in the probe.
    pub paths: Vec<String>,
}

/// Keeps a directory that `Path::parent` gave unless it is the empty path,
/// which stands for the current directory.
pub fn named_directory(parent: Option<String>) -> (r: Option<String>)
    ensures
        text_of(r) == match text_of(parent) {
            Some(dir) => if dir.len() > 0 {
                Some(dir)
            } else {
                None
            },
            None => None,
        },
{
    match parent {
        Some(dir) => if dir.as_str().is_empty() {
            None
        } else {
            Some(dir)
        },
        None => None,
    }
}

/// The directory that holds `path`, where the path names one.
pub fn directory(path: &str) -> (r: Option<String>)
    ensures
        text_of(r) == directory_of(path@),
{
    named_directory(parent(path))
}

/// The directory that holds `path` and what the probe records of it.
fn probed_directory(path: &str, probe: &FilesystemProbe) -> (r: (Option<String>, PathKind))
    ensures
        text_of(r.0) == directory_of(path@),
        r.1 == directory_kind(path@, probe@),
{
    let dir = directory(path);
    let kind = match &dir {
        Some(d) => probe.kind_of(d.as_str()),
        None => PathKind::Missing,
    };
    (dir, kind)
}

/// Adds `path`, and the directory that holds it, to `paths`.
fn push_with_directory(paths: &mut Vec<String>, path: &str)
    ensures
        texts(final(paths)@) == texts(old(paths)@) + with_directory(path@),
{
    paths.push(String::from_str(path));
    if let Some(dir) = directory(path) {
        paths.push(dir);
    }
}

/// Expands a leading `~` of the destination to the user's home directory and
/// lists the paths that the caller is to look at.
///
/// The home directory comes from the environment: of the expanded
/// destination only [`is_expansion_of`] is known.
pub fn plan_probe(suggested: &str, destination: &str) -> (r: ProbePlan)
    ensures
        is_expansion_of(r.destination@, destination@),
        texts(r.paths@) == paths_to_probe(suggested@, r.destination@),
{
    let expanded = tilde(destination);
    let mut paths: Vec<String> = Vec::new();
    if expanded.as_str().is_empty() {
        push_with_directory(&mut paths, suggested);
    } else {
        push_with_directory(&mut paths, expanded.as_str());
        let joined = join(expanded.as_str(), suggested);
        push_with_directory(&mut paths, joined.as_str());
    }
    ProbePlan { destination: expanded, paths }
}

/// The path that a destination which was given stands for, by what it is.
///
/// `inside` is the suggested name joined to the destination, `dir` the
/// directory that is to hold the destination and `dir_kind` what that is.
pub fn place(
    destination: &str,
    kind: PathKind,
    inside: String,
    dir: Option<String>,
    dir_kind: PathKind,
) -> (r: Result<String, TransferError>)
    ensures
        path_outcome(r) == placed(destination@, kind, inside@, text_of(dir), dir_kind),
{
    match kind {
        PathKind::Directory => Ok(inside),
        PathKind::File => Ok(String::from_str(destination)),
        PathKind::Other => Err(TransferError::InvalidDestination(String::from_str(destination))),
        PathKind::Missing => match dir {
            Some(dir) => match dir_kind {
                PathKind::Directory => Ok(String::from_str(destination)),
                _ => Err(TransferError::ParentMissing(dir)),
            },
            None => Ok(String::from_str(destination)),
        },
    }
}

/// The target at a located path, by what is there.
///
/// `kind` is what exists at `path`, `dir` the directory that is to hold it and
/// `dir_kind` what that is.
pub fn settle(
    path: String,
    kind: PathKind,
    replace: bool,
    dir: Option<String>,
    dir_kind: PathKind,
) -> (r: Result<DownloadTarget, TransferError>)
    ensures
        target_outcome(r) == settled(path@, kind, replace, text_of(dir), dir_kind),
{
    match kind {
        PathKind::Missing => {},
        _ => {
            if !replace {
                return Err(TransferError::AlreadyExists(path));
            }
        },
    }
    let create_dir = match dir_kind {
        PathKind::Missing => dir,
        _ => None,
    };
    Ok(DownloadTarget { path, create_dir })
}

/// The path that the destination stands for.
pub fn locate(suggested: &str, destination: &str, probe: &FilesystemProbe) -> (r: Result<
    String,
    TransferError,
>)
    ensures
        path_outcome(r) == located(suggested@, destination@, probe@),
{
    if destination.is_empty() {
        return Ok(String::from_str(suggested));
    }
    let kind = probe.kind_of(destination);
    let inside = join(destination, suggested);
    let (dir, dir_kind) = probed_directory(destination, probe);
    place(destination, kind, inside, dir, dir_kind)
}

/// Resolves the path that a download is written to.
///
/// `destination` is the user's destination after home-directory expansion,
/// `suggested` the file name that the server suggests, and `probe` what the
/// caller has found on the filesystem.
pub fn resolve_target(
    suggested: &str,
    destination: &str,
    replace: bool,
    probe: &FilesystemProbe,
) -> (r: Result<DownloadTarget, TransferError>)
    ensures
        target_outcome(r) == resolved(suggested@, destination@, replace, probe@),
{
    let path = match locate(suggested, destination, probe) {
        Ok(path) => path,
        Err(error) => {
            return Err(error);
        },
    };
    let kind = probe.kind_of(path.as_str());
    let (dir, dir_kind) = probed_directory(path.as_str(), probe);
    settle(path, kind, replace, dir, dir_kind)
}

/// With no destination, a download goes to the suggested name in the current
/// directory, and succeeds exactly if nothing is there or replacing was
/// asked for.
pub proof fn lemma_empty_destination(
    suggested: Seq<char>,
    replace: bool,
    facts: Seq<(Seq<char>, PathKind)>,
)
    ensures
        resolved(suggested, Seq::empty(), replace, facts) is Ok <==> (kind_in(facts, suggested)
            == PathKind::Missing || replace),
        resolved(suggested, Seq::empty(), replace, facts) matches Ok(target) ==> target.path
            == suggested,
        resolved(suggested, Seq::empty(), replace, facts) matches Err(error) ==> error
            == ErrorView::AlreadyExists(suggested),
{
}

/// With a directory as destination, a download goes to the suggested name
/// inside that directory.
pub proof fn lemma_directory_destination(
    suggested: Seq<char>,
    destination: Seq<char>,
    replace: bool,
    facts: Seq<(Seq<char>, PathKind)>,
)
    requires
        destination.len() > 0,
        kind_in(facts, destination) == PathKind::Directory,
    ensures
        resolved(suggested, destination, replace, facts) is Ok <==> (kind_in(
            facts,
            path_joined(destination, suggested),
        ) == PathKind::Missing || replace),
        resolved(suggested, destination, replace, facts) matches Ok(target) ==> target.path
            == path_joined(destination, suggested),
        resolved(suggested, destination, replace, facts) matches Err(error) ==> error
            == ErrorView::AlreadyExists(path_joined(destination, suggested)),
{
}

/// With an existing regular file as destination, a download goes to that file
/// if replacing was asked for, and fails with `AlreadyExists` otherwise: the
/// suggested name plays no part.
pub proof fn lemma_file_destination(
    suggested: Seq<char>,
    destination: Seq<char>,
    replace: bool,
    facts: Seq<(Seq<char>, PathKind)>,
)
    requires
        destination.len() > 0,
        kind_in(facts, destination) == PathKind::File,
    ensures
        replace ==> (resolved(suggested, destination, replace, facts) matches Ok(target)
            && target.path == destination),
        !replace ==> resolved(suggested, destination, replace, facts) == Err::<
            TargetView,
            ErrorView,
        >(ErrorView::AlreadyExists(destination)),
{
}

/// A destination that does not exist, in a directory that does not exist or
/// is no directory, fails with `ParentMissing`, whatever else holds.
pub proof fn lemma_parent_missing(
    suggested: Seq<char>,
    destination: Seq<char>,
    replace: bool,
    facts: Seq<(Seq<char>, PathKind)>,
    dir: Seq<char>,
)
    requires
        destination.len() > 0,
        kind_in(facts, destination) == PathKind::Missing,
        directory_of(destination) == Some(dir),
        kind_in(facts, dir) != PathKind::Directory,
    ensures
        resolved(suggested, destination, replace, facts) == Err::<TargetView, ErrorView>(
            ErrorView::ParentMissing(dir),
        ),
{
}

/// A resolved target never takes the place of something that exists unless
/// replacing was asked for, and the directory that is to hold it either
/// exists or is named for creation.
pub proof fn lemma_target_is_safe(
    suggested: Seq<char>,
    destination: Seq<char>,
    replace: bool,
    facts: Seq<(Seq<char>, PathKind)>,
)
    ensures
        resolved(suggested, destination, replace, facts) matches Ok(target) ==> {
            &&& !replace ==> kind_in(facts, target.path) == PathKind::Missing
            &&& directory_of(target.path) matches Some(dir) ==> (kind_in(facts, dir)
                != PathKind::Missing || target.create_dir == Some(dir))
        },
{
}

/// Two records of the filesystem that agree on the paths to probe resolve a
/// download alike: nothing else is looked at.
pub proof fn lemma_probe_paths_suffice(
    suggested: Seq<char>,
    destination: Seq<char>,
    replace: bool,
    facts: Seq<(Seq<char>, PathKind)>,
    other: Seq<(Seq<char>, PathKind)>,
)
    requires
        forall|i: int|
            0 <= i < paths_to_probe(suggested, destination).len() ==> kind_in(
                facts,
                #[trigger] paths_to_probe(suggested, destination)[i],
            ) == kind_in(other, paths_to_probe(suggested, destination)[i]),
    ensures
        resolved(suggested, destination, replace, facts) == resolved(
            suggested,
            destination,
            replace,
            other,
        ),
{
    let paths = paths_to_probe(suggested, destination);
    if destination.len() == 0 {
        assert(paths[0] == suggested);
        if directory_of(suggested) is Some {
            assert(paths[1] == directory_of(suggested)->0);
        }
    } else {
        let joined = path_joined(destination, suggested);
        let first = with_directory(destination).len() as int;
        assert(paths[0] == destination);
        if directory_of(destination) is Some {
            assert(paths[1] == directory_of(destination)->0);
        }
        assert(paths[first] == joined);
        if directory_of(joined) is Some {
            assert(paths[first + 1] == directory_of(joined)->0);
        }
    }
}

} // verus!
