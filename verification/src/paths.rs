//! Where the daemon keeps its lock and its status file.

use crate::text::joined;
use vstd::prelude::*;

verus! {

/// The status file: in the user's runtime directory, or in `/run` where there is none.
pub open spec fn status_path_in(runtime_dir: Option<Seq<char>>) -> Seq<char> {
    match runtime_dir {
        Some(dir) => dir + "/podman-healthcheckd-status.json"@,
        None => "/run/podman-healthcheckd-status.json"@,
    }
}

/// The lock file: in the user's runtime directory, or in `/tmp` where there is none.
pub open spec fn lock_path_in(runtime_dir: Option<Seq<char>>) -> Seq<char> {
    match runtime_dir {
        Some(dir) => dir + "/podman-healthcheckd.lock"@,
        None => "/tmp/podman-healthcheckd.lock"@,
    }
}

/// The text of an optional string.
pub open spec fn optional_text(text: Option<&str>) -> Option<Seq<char>> {
    match text {
        Some(text) => Some(text@),
        None => None,
    }
}

/// The path of the status file, given the runtime directory if there is one.
pub fn status_path(runtime_dir: Option<&str>) -> (res: String)
    ensures
        res@ == status_path_in(optional_text(runtime_dir)),
        runtime_dir matches Some(dir) ==> res@ == dir@ + "/podman-healthcheckd-status.json"@,
        runtime_dir is None ==> res@ == "/run/podman-healthcheckd-status.json"@,
{
    match runtime_dir {
        Some(dir) => joined(dir, "/podman-healthcheckd-status.json"),
        None => "/run/podman-healthcheckd-status.json".to_owned(),
    }
}

/// The path of the lock file, given the runtime directory if there is one.
pub fn lock_path(runtime_dir: Option<&str>) -> (res: String)
    ensures
        res@ == lock_path_in(optional_text(runtime_dir)),
        runtime_dir matches Some(dir) ==> res@ == dir@ + "/podman-healthcheckd.lock"@,
        runtime_dir is None ==> res@ == "/tmp/podman-healthcheckd.lock"@,
{
    match runtime_dir {
        Some(dir) => joined(dir, "/podman-healthcheckd.lock"),
        None => "/tmp/podman-healthcheckd.lock".to_owned(),
    }
}

/// The status file is never the lock file, whatever the runtime directories.
pub proof fn law_status_is_not_lock(dir: Option<Seq<char>>, other: Option<Seq<char>>)
    ensures
        status_path_in(dir) != lock_path_in(other),
{
    reveal_strlit("/podman-healthcheckd-status.json");
    reveal_strlit("/run/podman-healthcheckd-status.json");
    reveal_strlit("/podman-healthcheckd.lock");
    reveal_strlit("/tmp/podman-healthcheckd.lock");
    assert(status_path_in(dir).last() == 'n');
    assert(lock_path_in(other).last() == 'k');
}

/// Both files lie directly in the runtime directory, whatever it is, under names that
/// never change; without one they lie in fixed places.
pub proof fn law_files_lie_in_the_runtime_directory(dir: Seq<char>)
    ensures
        status_path_in(Some(dir)) == dir + "/podman-healthcheckd-status.json"@,
        lock_path_in(Some(dir)) == dir + "/podman-healthcheckd.lock"@,
        status_path_in(None) == "/run/podman-healthcheckd-status.json"@,
        lock_path_in(None) == "/tmp/podman-healthcheckd.lock"@,
{
}

/// Two runtime directories never share a file.
pub proof fn law_runtime_directories_share_no_file(dir: Seq<char>, other: Seq<char>)
    requires
        dir != other,
    ensures
        status_path_in(Some(dir)) != status_path_in(Some(other)),
        lock_path_in(Some(dir)) != lock_path_in(Some(other)),
{
    let status = "/podman-healthcheckd-status.json"@;
    let lock = "/podman-healthcheckd.lock"@;
    if dir + status == other + status {
        assert((dir + status).len() == (other + status).len());
        assert((dir + status).take(dir.len() as int) =~= dir);
        assert((other + status).take(dir.len() as int) =~= other);
    }
    if dir + lock == other + lock {
        assert((dir + lock).len() == (other + lock).len());
        assert((dir + lock).take(dir.len() as int) =~= dir);
        assert((other + lock).take(dir.len() as int) =~= other);
    }
}

} // verus!
