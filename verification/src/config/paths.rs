//! Where the configuration file lives.
use vstd::prelude::*;
use crate::text::{join_path, path_join};

verus! {

/// `dirs::config_dir()` (`$XDG_CONFIG_HOME`, else `~/.config` of the user's home), as a
/// string. It reads the environment, so nothing is stated of its result.
#[verifier::external_body]
fn config_dir() -> (r: Option<String>)
{
    match dirs::config_dir() {
        Some(p) => Some(p.to_string_lossy().into_owned()),
        None => None,
    }
}

/// The configuration file under the user's configuration directory `dir` (`~/.config`
/// when it is unknown): `<dir>/mantle/config.toml`.
pub open spec fn config_path_for(dir: Option<String>) -> Seq<char> {
    let base = match dir {
        Some(d) => d@,
        None => "~/.config"@,
    };
    path_join(path_join(base, "mantle"@), "config.toml"@)
}

/// The configuration file path for a given configuration directory.
pub fn config_path_in(dir: Option<String>) -> (r: String)
    ensures
        r@ == config_path_for(dir),
{
    let base = match dir {
        Some(d) => d,
        None => crate::text::owned("~/.config"),
    };
    let app = join_path(&base, "mantle");
    join_path(&app, "config.toml")
}

/// The XDG configuration file path: `$XDG_CONFIG_HOME/mantle/config.toml`, falling back to
/// `~/.config/mantle/config.toml`.
pub fn config_path() -> (r: String)
    ensures
        exists|dir: Option<String>| r@ == config_path_for(dir),
{
    let dir = config_dir();
    let r = config_path_in(dir);
    r
}

} // verus!
