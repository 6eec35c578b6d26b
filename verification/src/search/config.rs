//! The configuration of the search command, and where the files of this
//! tool are kept.

use vstd::prelude::*;
use vstd::string::*;

verus! {

/// The two credentials that the search service asks for.
#[derive(Debug)]
pub struct Config {
    pub api_key: String,
    pub search_engine_id: String,
}

/// The place of the configuration file under the home directory `home`.
pub open spec fn config_path_of(home: Seq<char>) -> Seq<char> {
    home + "/.dev-config/config.yaml"@
}

/// The place of the result store under the home directory `home`.
pub open spec fn store_path_of(home: Seq<char>) -> Seq<char> {
    home + "/.dev-config/results.yaml"@
}

/// What a configuration file holds when it is first created: both
/// credentials, empty.
pub open spec fn default_contents_of() -> Seq<char> {
    "api_key: \"\"\nsearch_engine_id: \"\""@
}

/// Asks `dirs::home_dir` for the current user's home directory and takes
/// the path as text. The answer depends on the user and the machine, so
/// nothing is claimed of it.
#[verifier::external_body]
pub(crate) fn home_dir() -> (home: Option<String>) {
    dirs::home_dir().map(|path| path.to_string_lossy().into_owned())
}

impl Config {
    /// The place of the configuration file under `home`.
    pub fn path_in(home: &str) -> (path: String)
        ensures
            path@ == config_path_of(home@),
    {
        String::from_str(home).concat("/.dev-config/config.yaml")
    }

    /// The place of the current user's configuration file, where the user
    /// has a home directory.
    pub fn dir() -> (path: Option<String>)
        ensures
            path matches Some(p) ==> exists|home: Seq<char>| p@ == config_path_of(home),
    {
        let home: Option<String> = home_dir();
        let path: Option<String> = Config::path_for(&home);
        assert(path matches Some(p) ==> home matches Some(h) && p@ == config_path_of(h@));
        path
    }

    /// The place of the configuration file for a user whose home directory
    /// is `home`: under that directory where there is one, and nowhere
    /// where there is none.
    pub fn path_for(home: &Option<String>) -> (path: Option<String>)
        ensures
            home is None <==> path is None,
            home matches Some(h) ==> (path matches Some(p) && p@ == config_path_of(h@)),
    {
        match home {
            Some(h) => Some(Config::path_in(h.as_str())),
            None => None,
        }
    }

    /// What to write where the configuration file may be missing: nothing
    /// where it exists, and the empty credentials where it does not.
    pub fn create_file(exists: bool) -> (contents: Option<String>)
        ensures
            exists ==> contents is None,
            !exists ==> (contents matches Some(c) && c@ == default_contents_of()),
    {
        if exists {
            None
        } else {
            Some(String::from_str("api_key: \"\"\nsearch_engine_id: \"\""))
        }
    }
}

} // verus!
