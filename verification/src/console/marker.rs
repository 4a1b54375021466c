//! Shared mechanics behind the console's durable single-fact marker files.
//!
//! A fact is recorded as a small file under the player's data directory whose
//! content must be exactly a fixed marker. Here is where such a file lies,
//! what it must hold, and how it is written; reading and writing it is the
//! host's work. Paths are byte strings with `/` between their parts.

use vstd::prelude::*;
use vstd::string::StringSliceAdditionalSpecFns;

verus! {

/// The byte between the parts of a path.
pub const SEPARATOR: u8 = 47;

/// The bytes of a text.
pub open spec fn bytes_of(text: &str) -> Seq<u8> {
    text.spec_bytes()
}

/// Whether a path starts at the root.
pub open spec fn is_absolute(path: Seq<u8>) -> bool {
    path.len() > 0 && path[0] == SEPARATOR
}

/// The path of `name` in the directory `base`. An absolute name stands for
/// itself.
pub open spec fn joined(base: Seq<u8>, name: Seq<u8>) -> Seq<u8> {
    if is_absolute(name) {
        name
    } else if base.len() > 0 && base.last() != SEPARATOR {
        base.push(SEPARATOR) + name
    } else {
        base + name
    }
}

/// The player's data directory below their home directory, unless that is
/// empty.
pub open spec fn home_data(home: Option<Seq<u8>>) -> Option<Seq<u8>> {
    match home {
        Some(home) => if home.len() == 0 {
            None
        } else {
            Some(joined(joined(home, bytes_of(".local")), bytes_of("share")))
        },
        None => None,
    }
}

/// The player's data directory. An empty or relative setting counts as none:
/// it would depend on where the console is started.
pub open spec fn data_directory(xdg_data_home: Option<Seq<u8>>, home: Option<Seq<u8>>) -> Option<
    Seq<u8>,
> {
    if xdg_data_home is Some && is_absolute(xdg_data_home->0) {
        xdg_data_home
    } else {
        home_data(home)
    }
}

/// The path of a file of this console in a data directory.
pub open spec fn file_in(directory: Option<Seq<u8>>, file_name: Seq<u8>) -> Option<Seq<u8>> {
    match directory {
        Some(directory) => Some(
            joined(joined(directory, bytes_of("human-exception")), file_name),
        ),
        None => None,
    }
}

/// The bytes of an optional path.
pub open spec fn path_model(path: Option<Vec<u8>>) -> Option<Seq<u8>> {
    match path {
        Some(path) => Some(path@),
        None => None,
    }
}

/// The path of `name` in the directory `base`.
pub fn join(base: Vec<u8>, name: &[u8]) -> (path: Vec<u8>)
    ensures
        path@ == joined(base@, name@),
{
    if name.len() > 0 && name[0] == SEPARATOR {
        let mut path: Vec<u8> = Vec::new();
        path.extend_from_slice(name);
        return path;
    }
    let mut path = base;
    if path.len() > 0 && path[path.len() - 1] != SEPARATOR {
        path.push(SEPARATOR);
    }
    path.extend_from_slice(name);
    path
}

/// The data directory below a home directory.
pub fn home_data_directory(home: Option<Vec<u8>>) -> (directory: Option<Vec<u8>>)
    ensures
        path_model(directory) == home_data(path_model(home)),
{
    match home {
        Some(home) => {
            if home.len() == 0 {
                return None;
            }
            Some(join(join(home, ".local".as_bytes()), "share".as_bytes()))
        },
        None => None,
    }
}

/// The path of a file of this console in a data directory.
pub fn console_file(directory: Option<Vec<u8>>, file_name: &str) -> (path: Option<Vec<u8>>)
    ensures
        path_model(path) == file_in(path_model(directory), bytes_of(file_name)),
{
    match directory {
        Some(directory) => Some(
            join(join(directory, "human-exception".as_bytes()), file_name.as_bytes()),
        ),
        None => None,
    }
}

/// The path of a marker file, from the settings of the player's data and home
/// directories; `None` if there is neither.
pub fn resolve_path(
    xdg_data_home: Option<Vec<u8>>,
    home: Option<Vec<u8>>,
    file_name: &str,
) -> (path: Option<Vec<u8>>)
    ensures
        path_model(path) == file_in(
            data_directory(path_model(xdg_data_home), path_model(home)),
            bytes_of(file_name),
        ),
{
    let configured = match xdg_data_home {
        Some(directory) => if directory.len() > 0 && directory[0] == SEPARATOR {
            Some(directory)
        } else {
            None
        },
        None => None,
    };
    let directory = match configured {
        Some(directory) => Some(directory),
        None => home_data_directory(home),
    };
    console_file(directory, file_name)
}

/// How much of a marker file has to be read: one byte more than the marker
/// has, since any file of another length is no match.
pub fn read_limit(marker: &str) -> (limit: usize)
    requires
        bytes_of(marker).len() < usize::MAX,
    ensures
        limit == bytes_of(marker).len() + 1,
{
    marker.as_bytes().len() + 1
}

/// Whether a file holds exactly the marker. `content` is what was read of the
/// file, up to its read limit; `None` where there is no such file, or it
/// could not be read.
pub fn marker_matches(content: Option<&[u8]>, marker: &str) -> (matches: bool)
    ensures
        matches == (content is Some && (content->0)@ == bytes_of(marker)),
{
    match content {
        None => false,
        Some(read) => {
            let expected = marker.as_bytes();
            if read.len() != expected.len() {
                return false;
            }
            for i in 0..read.len()
                invariant
                    content == Some(read),
                    expected@ == bytes_of(marker),
                    read@.len() == expected@.len(),
                    forall|j: int| 0 <= j < i ==> read@[j] == expected@[j],
            {
                if read[i] != expected[i] {
                    return false;
                }
            }
            assert(read@ =~= expected@);
            true
        },
    }
}

/// What there is to read of a file of the given content, up to `limit` bytes.
pub open spec fn read_up_to(file: Seq<u8>, limit: nat) -> Seq<u8> {
    if file.len() <= limit {
        file
    } else {
        file.take(limit as int)
    }
}

/// Reading up to the limit is enough: what was read is the marker exactly if
/// the whole file is.
pub proof fn law_limited_read_decides(file: Seq<u8>, marker: Seq<u8>)
    ensures
        read_up_to(file, marker.len() + 1) == marker <==> file == marker,
{
}

/// How a marker file is written, so that only a complete file ever stands at
/// its path: the directory is made, `content` is written to `temporary`, and
/// that is renamed to the path.
#[derive(Debug, Clone, PartialEq, Eq)]
pub struct WritePlan {
    pub directory: Vec<u8>,
    pub temporary: Vec<u8>,
    pub content: Vec<u8>,
}

/// Why a path cannot hold a marker file.
#[derive(Debug, Clone, Copy, PartialEq, Eq, Structural)]
pub enum PathError {
    NoParentDirectory,
    NoFileName,
}

impl PathError {
    /// What is wrong with the path.
    pub fn describe(self) -> (message: &'static str)
        ensures
            message@ == match self {
                PathError::NoParentDirectory => "marker path has no parent directory"@,
                PathError::NoFileName => "marker path has no file name"@,
            },
    {
        match self {
            PathError::NoParentDirectory => "marker path has no parent directory",
            PathError::NoFileName => "marker path has no file name",
        }
    }
}

/// Plans the writing of a marker file, given the parent directory and the
/// file name of its path. The temporary file lies beside it.
pub fn write_marker_atomically(
    parent: Option<Vec<u8>>,
    file_name: Option<Vec<u8>>,
    marker: &str,
) -> (plan: Result<WritePlan, PathError>)
    ensures
        match plan {
            Ok(plan) => {
                &&& parent is Some
                &&& file_name is Some
                &&& plan.directory@ == (parent->0)@
                &&& plan.temporary@ == joined(
                    (parent->0)@,
                    (file_name->0)@ + bytes_of(".tmp"),
                )
                &&& plan.content@ == bytes_of(marker)
            },
            Err(PathError::NoParentDirectory) => parent is None,
            Err(PathError::NoFileName) => parent is Some && file_name is None,
        },
{
    let directory = match parent {
        Some(parent) => parent,
        None => {
            return Err(PathError::NoParentDirectory);
        },
    };
    let mut temporary_name = match file_name {
        Some(name) => name,
        None => {
            return Err(PathError::NoFileName);
        },
    };
    temporary_name.extend_from_slice(".tmp".as_bytes());
    let mut base: Vec<u8> = Vec::new();
    base.extend_from_slice(directory.as_slice());
    let mut content: Vec<u8> = Vec::new();
    content.extend_from_slice(marker.as_bytes());
    Ok(WritePlan { directory, temporary: join(base, temporary_name.as_slice()), content })
}

/// How a path is put together: one separator stands between the parts, and is
/// not doubled; an absolute name stands for itself.
pub proof fn law_paths_have_one_separator(base: Seq<u8>, name: Seq<u8>)
    ensures
        name.len() > 0 && name[0] == 47 ==> joined(base, name) == name,
        (name.len() == 0 || name[0] != 47) && base.len() > 0 && base.last() != 47 ==> joined(
            base,
            name,
        ) == base + seq![47u8] + name,
        (name.len() == 0 || name[0] != 47) && (base.len() == 0 || base.last() == 47) ==> joined(
            base,
            name,
        ) == base + name,
{
    assert(base.push(47u8) + name =~= base + seq![47u8] + name);
}

/// Where a marker file lies: below the data directory that is set, if that is
/// absolute; else below the home directory, if there is one that is not empty;
/// else nowhere.
pub proof fn law_where_marker_files_lie(
    xdg_data_home: Option<Seq<u8>>,
    home: Option<Seq<u8>>,
    name: Seq<u8>,
)
    ensures
        ({
            let path = file_in(data_directory(xdg_data_home, home), name);
            let configured = xdg_data_home matches Some(directory) && directory.len() > 0
                && directory[0] == 47;
            let at_home = home matches Some(directory) && directory.len() > 0;
            &&& configured ==> path == Some(
                joined(joined(xdg_data_home->0, bytes_of("human-exception")), name),
            )
            &&& !configured && at_home ==> path == Some(
                joined(
                    joined(
                        joined(joined(home->0, bytes_of(".local")), bytes_of("share")),
                        bytes_of("human-exception"),
                    ),
                    name,
                ),
            )
            &&& !configured && !at_home ==> path is None
        }),
{
}

} // verus!
