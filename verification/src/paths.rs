//! The conventional places of the tool's on-disk state, relative to the
//! working directory.

use vstd::prelude::*;
use vstd::string::StringExecFns;

verus! {

pub const ARBOR_DIR: &'static str = ".arbor";

pub const DATABASE_FILE: &'static str = "database.json";

pub const CONFIG_FILE: &'static str = "config.toml";

pub const COMMANDS_DIR: &'static str = "commands";

/// The state directory.
pub fn arbor_dir() -> (r: String)
    ensures
        r@ == ".arbor"@,
{
    ".arbor".to_owned()
}

/// The analysis database inside the state directory.
pub fn database_path() -> (r: String)
    ensures
        r@ == ".arbor"@ + "/"@ + "database.json"@,
{
    let mut r = ".arbor".to_owned();
    r.append("/");
    r.append("database.json");
    proof {
        assert(r@ =~= ".arbor"@ + "/"@ + "database.json"@);
    }
    r
}

/// The configuration file inside the state directory.
pub fn config_path() -> (r: String)
    ensures
        r@ == ".arbor"@ + "/"@ + "config.toml"@,
{
    let mut r = ".arbor".to_owned();
    r.append("/");
    r.append("config.toml");
    proof {
        assert(r@ =~= ".arbor"@ + "/"@ + "config.toml"@);
    }
    r
}

/// The command-snippet directory inside the state directory.
pub fn commands_dir() -> (r: String)
    ensures
        r@ == ".arbor"@ + "/"@ + "commands"@,
{
    let mut r = ".arbor".to_owned();
    r.append("/");
    r.append("commands");
    proof {
        assert(r@ =~= ".arbor"@ + "/"@ + "commands"@);
    }
    r
}

} // verus!
