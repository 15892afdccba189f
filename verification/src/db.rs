//! The one question the playback side ever puts to the library database's
//! storage: whether its file is already on disk. Everything else about the
//! database — opening it, migrating it, querying it — is the embedding
//! shell's business.

use vstd::prelude::*;

verus! {

/// Relies on `std::path::Path::exists`: reports whether something is
/// present at `path` on this machine right now. The answer depends on the
/// state of the disk at the moment of the call, so nothing more is promised
/// of it.
#[verifier::external_body]
fn path_exists(path: &str) -> bool {
    std::path::Path::new(path).exists()
}

/// Whether the player's database file is already on disk, so the shell can
/// decide between opening it and creating a fresh one. The shell supplies
/// the path, since locating the user's configuration directory is its
/// business.
pub fn db_file_exists(db_path: &str) -> bool {
    path_exists(db_path)
}

} // verus!
