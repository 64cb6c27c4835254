//! Where the server keeps its files: a host directory below the user's home,
//! with the three documents and the sandbox root inside it.

use vstd::prelude::*;
use vstd::string::*;
use crate::paths::{home_path, joined_path, path_join};

verus! {

/// The text of the host directory for the home with text `home`.
pub open spec fn host_of(home: Seq<char>) -> Seq<char> {
    joined_path(home, "cnt"@)
}

/// The directory that holds everything the server owns, for a user whose
/// home directory is `home`.
pub fn host_directory(home: &str) -> (r: String)
    ensures
        r@ == host_of(home@),
{
    path_join(home, "cnt")
}

/// The sandbox root: the directory below which every path shown to a client
/// lies.
pub fn root_directory(home: &str) -> (r: String)
    ensures
        r@ == joined_path(host_of(home@), "data"@),
{
    let host = host_directory(home);
    path_join(host.as_str(), "data")
}

/// The document of the user directory.
pub fn user_database_path(home: &str) -> (r: String)
    ensures
        r@ == joined_path(host_of(home@), "users.json"@),
{
    let host = host_directory(home);
    path_join(host.as_str(), "users.json")
}

/// The document of the file registry.
pub fn file_owner_db_path(home: &str) -> (r: String)
    ensures
        r@ == joined_path(host_of(home@), "files.json"@),
{
    let host = host_directory(home);
    path_join(host.as_str(), "files.json")
}

/// The document of the transfer telemetry.
pub fn network_analyzer_path(home: &str) -> (r: String)
    ensures
        r@ == joined_path(host_of(home@), "stats.json"@),
{
    let host = host_directory(home);
    path_join(host.as_str(), "stats.json")
}

/// The host directory of the user that runs this process: none where the
/// home directory cannot be found. Which home is found is for the machine to
/// say; the directory is the host directory of that home.
pub fn locate_host_directory() -> (r: Option<String>)
    ensures
        r matches Some(p) ==> exists|home: Seq<char>| p@ == host_of(home),
{
    match home_path() {
        Some(home) => Some(host_directory(home.as_str())),
        None => None,
    }
}

} // verus!
