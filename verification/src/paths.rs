//! The names of shellagotchi's files and directories. Finding the user's
//! home, config and runtime directories (from the environment) and joining
//! paths onto them happen outside the library.
use vstd::prelude::*;

verus! {

/// The pet's save file, inside the state directory.
pub const STATE_FILE_NAME: &'static str = "pet.json";

/// The state directory, relative to the user's home directory.
pub const STATE_DIR_IN_HOME: &'static str = ".local/state/shellagotchi";

/// The config file, inside the config directory.
pub const CONFIG_FILE_NAME: &'static str = "config.toml";

/// The daemon's socket, inside the runtime directory.
pub const SOCKET_FILE_NAME: &'static str = "sock";

/// The prompt cache, inside the runtime directory.
pub const PROMPT_CACHE_FILE_NAME: &'static str = "prompt";

/// The runtime directory's name inside `$XDG_RUNTIME_DIR`.
pub const RUNTIME_DIR_NAME: &'static str = "shellagotchi";

/// The runtime directory used without `$XDG_RUNTIME_DIR`: one per user
/// under `/tmp`, for the user named by `$USER` (or `unknown`).
pub open spec fn fallback_runtime_dir_spec(user: Option<Seq<char>>) -> Seq<char> {
    "/tmp/shellagotchi-"@ + match user {
        Some(u) => u,
        None => "unknown"@,
    }
}

/// Names the runtime directory used without `$XDG_RUNTIME_DIR`, given the
/// value of `$USER` if it is set.
pub fn fallback_runtime_dir(user: Option<&str>) -> (dir: String)
    ensures
        dir@ == fallback_runtime_dir_spec(
            match user {
                Some(u) => Some(u@),
                None => None,
            },
        ),
{
    let mut dir = String::from_str("/tmp/shellagotchi-");
    match user {
        Some(u) => dir.append(u),
        None => dir.append("unknown"),
    }
    dir
}

} // verus!
