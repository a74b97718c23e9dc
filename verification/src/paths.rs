use vstd::prelude::*;
use crate::event::nonempty_text;

verus! {

broadcast use vstd::string::group_string_axioms;

/// The environment variable that overrides Rho's data directory.
pub const RHO_HOME_ENV: &'static str = "RHO_HOME";

/// The file name of Rho's usage ledger inside its data directory.
pub const RHO_DB_FILE_NAME: &'static str = "usage.sqlite3";

/// The name of Rho's data directory inside the home directory.
pub const RHO_DIR_NAME: &'static str = ".rho";

/// The path, as components to join in order, at which the ledger is looked
/// for: `$RHO_HOME/usage.sqlite3` when `RHO_HOME` is set and not empty,
/// else `~/.rho/usage.sqlite3` when the home directory is known.
pub open spec fn db_path_of(rho_home: Option<String>, home_dir: Option<String>) -> Option<Seq<Seq<char>>> {
    match nonempty_text(rho_home) {
        Some(root) => Some(seq![root, RHO_DB_FILE_NAME@]),
        None => match home_dir {
            Some(home) => Some(seq![home@, RHO_DIR_NAME@, RHO_DB_FILE_NAME@]),
            None => None,
        },
    }
}

pub open spec fn path_view(p: Option<Vec<String>>) -> Option<Seq<Seq<char>>> {
    match p {
        Some(v) => Some(v@.map_values(|s: String| s@)),
        None => None,
    }
}

/// Where to look for the ledger, given the value of `RHO_HOME` and the home
/// directory: the components of the path, or `None` when neither is known.
/// Whether a file stands there is for the caller to find out.
pub fn db_path_candidate(rho_home: Option<String>, home_dir: Option<String>) -> (path: Option<Vec<String>>)
    ensures
        path_view(path) == db_path_of(rho_home, home_dir),
{
    let ghost rho_home_in = rho_home;
    let ghost home_in = home_dir;
    match rho_home {
        Some(root) if !root.as_str().is_empty() => {
            let mut parts: Vec<String> = Vec::new();
            parts.push(root);
            parts.push(RHO_DB_FILE_NAME.to_owned());
            assert(path_view(Some(parts)) =~~= db_path_of(rho_home_in, home_in));
            Some(parts)
        },
        _ => match home_dir {
            Some(home) => {
                let mut parts: Vec<String> = Vec::new();
                parts.push(home);
                parts.push(RHO_DIR_NAME.to_owned());
                parts.push(RHO_DB_FILE_NAME.to_owned());
                assert(path_view(Some(parts)) =~~= db_path_of(rho_home_in, home_in));
                Some(parts)
            },
            None => None,
        },
    }
}

} // verus!
