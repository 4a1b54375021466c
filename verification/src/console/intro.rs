//! Durable acknowledgement of the first-launch introduction.
//!
//! Whether the player has dismissed the introduction is remembered across
//! relaunches, as a marker file.

use vstd::prelude::*;

use super::marker;
use super::marker::{bytes_of, data_directory, file_in, path_model, PathError, WritePlan};

verus! {

/// The exact content of the marker file. Anything else counts as not yet
/// acknowledged.
pub const MARKER: &'static str = "acknowledged\n";

/// The name of the marker file.
pub const FILE_NAME: &'static str = "bootstrap-intro-acknowledged";

/// The path of the marker file, from the settings of the player's data and
/// home directories.
pub fn default_path(xdg_data_home: Option<Vec<u8>>, home: Option<Vec<u8>>) -> (path: Option<
    Vec<u8>,
>)
    ensures
        path_model(path) == file_in(
            data_directory(path_model(xdg_data_home), path_model(home)),
            bytes_of(FILE_NAME),
        ),
{
    marker::resolve_path(xdg_data_home, home, FILE_NAME)
}

/// Whether what was read of the marker file says that the introduction was
/// acknowledged.
pub fn is_acknowledged(content: Option<&[u8]>) -> (acknowledged: bool)
    ensures
        acknowledged == (content is Some && (content->0)@ == bytes_of(MARKER)),
{
    marker::marker_matches(content, MARKER)
}

/// Plans the writing of the marker file.
pub fn mark_acknowledged(parent: Option<Vec<u8>>, file_name: Option<Vec<u8>>) -> (plan: Result<
    WritePlan,
    PathError,
>)
    ensures
        plan matches Ok(plan) ==> parent is Some && file_name is Some && plan.directory@ == (
        parent->0)@ && plan.temporary@ == marker::joined(
            (parent->0)@,
            (file_name->0)@ + bytes_of(".tmp"),
        ) && plan.content@ == bytes_of(MARKER),
        plan == Err::<WritePlan, PathError>(PathError::NoParentDirectory) <==> parent is None,
        plan == Err::<WritePlan, PathError>(PathError::NoFileName) <==> parent is Some
            && file_name is None,
{
    marker::write_marker_atomically(parent, file_name, MARKER)
}

/// What a plan writes is read back as acknowledged.
pub proof fn law_mark_is_read_back(plan: WritePlan)
    requires
        plan.content@ == bytes_of(MARKER),
    ensures
        marker::read_up_to(plan.content@, bytes_of(MARKER).len() + 1) == bytes_of(MARKER),
{
}

/// What the marker file holds, and what it is called.
pub proof fn law_marker_file_is_fixed()
    ensures
        MARKER@ == "acknowledged\n"@,
        FILE_NAME@ == "bootstrap-intro-acknowledged"@,
{
}

} // verus!
