//! Durable operator-network connectivity.
//!
//! Whether the player has succeeded at First Contact is remembered across
//! relaunches, as a marker file.

use vstd::prelude::*;

use super::marker;
use super::marker::{bytes_of, file_in, home_data, path_model};

verus! {

/// The exact content of the marker file. Anything else counts as not
/// connected.
pub const MARKER: &'static str = "connected\n";

/// The name of the marker file.
pub const FILE_NAME: &'static str = "operator-network";

/// The path of the marker file, from the settings of the player's data and
/// home directories; `None` if there is neither.
pub fn default_path(xdg_data_home: Option<Vec<u8>>, home: Option<Vec<u8>>) -> (path: Option<
    Vec<u8>,
>)
    ensures
        path_model(path) == file_in(
            if xdg_data_home is Some {
                path_model(xdg_data_home)
            } else {
                home_data(path_model(home))
            },
            bytes_of(FILE_NAME),
        ),
{
    let directory = match xdg_data_home {
        Some(directory) => Some(directory),
        None => marker::home_data_directory(home),
    };
    marker::console_file(directory, FILE_NAME)
}

/// Whether the content of a marker file says that the player is connected:
/// only its exact content does.
pub open spec fn says_connected(content: Option<Seq<u8>>) -> bool {
    content == Some(bytes_of(MARKER))
}

/// Whether the content of the marker file says that the player is connected.
/// `None` where there is no such file, or it could not be read.
pub fn is_connected(content: Option<&[u8]>) -> (connected: bool)
    ensures
        connected == says_connected(
            match content {
                Some(content) => Some(content@),
                None => None,
            },
        ),
{
    marker::marker_matches(content, MARKER)
}

/// The content to write once the player is connected.
pub fn mark_connected() -> (content: Vec<u8>)
    ensures
        content@ == bytes_of(MARKER),
{
    let mut content: Vec<u8> = Vec::new();
    content.extend_from_slice(MARKER.as_bytes());
    content
}

/// What is written once the player is connected is read back as connected,
/// and nothing else is: neither a part of it nor it with something behind it.
pub proof fn law_mark_is_read_back(content: Seq<u8>)
    ensures
        says_connected(Some(content)) <==> content == bytes_of(MARKER),
        content.len() != bytes_of(MARKER).len() ==> !says_connected(Some(content)),
        !says_connected(None),
{
}

/// What the marker file holds, and what it is called.
pub proof fn law_marker_file_is_fixed()
    ensures
        MARKER@ == "connected\n"@,
        FILE_NAME@ == "operator-network"@,
{
}

} // verus!
