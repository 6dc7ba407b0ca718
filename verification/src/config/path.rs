//! Where the configuration file lies. The library makes paths and joins
//! them with the standard library; it never takes one apart.

use std::path::PathBuf;
use vstd::prelude::*;

verus! {

/// `std::path::PathBuf`, carried as it is.
#[verifier::external_type_specification]
#[verifier::external_body]
pub struct ExPathBuf(PathBuf);

/// What a path holds: its bytes, as the platform keeps them.
pub uninterp spec fn path_bytes(path: PathBuf) -> Seq<u8>;

/// What the path holds that `PathBuf::from` makes of a text.
pub uninterp spec fn path_of(text: Seq<char>) -> Seq<u8>;

/// What a path holds after `PathBuf::push`, by what it held before and what
/// the pushed path holds. The rules of joining are those of the platform
/// the library is built for.
pub uninterp spec fn path_joined(base: Seq<u8>, component: Seq<u8>) -> Seq<u8>;

/// The configuration file of a user whose home directory is `home`: the
/// file `.culper.toml` in that directory, or in the working directory where
/// there is no home directory.
pub open spec fn default_config_path(home: Option<Seq<u8>>) -> Seq<u8> {
    let directory = match home {
        Some(home) => home,
        None => path_of("./"@),
    };
    path_joined(path_joined(path_of(""@), directory), path_of(".culper.toml"@))
}

/// What a home directory holds, if there is one.
pub open spec fn home_bytes(home: Option<PathBuf>) -> Option<Seq<u8>> {
    match home {
        Some(home) => Some(path_bytes(home)),
        None => None,
    }
}

/// Calls `PathBuf::from` on a text. Taken on trust: what the path holds is
/// decided by the text alone, and is what [`path_of`] names.
#[verifier::external_body]
pub(crate) fn path_from_text(text: &str) -> (path: PathBuf)
    ensures
        path_bytes(path) == path_of(text@),
{
    PathBuf::from(text)
}

/// Calls `PathBuf::push`. Taken on trust: what the path holds afterwards is
/// decided by what the two paths held, and is what [`path_joined`] names.
#[verifier::external_body]
pub(crate) fn push_path(base: &mut PathBuf, component: &PathBuf)
    ensures
        path_bytes(*final(base)) == path_joined(path_bytes(*old(base)), path_bytes(*component)),
{
    base.push(component)
}

/// `PathBuf::clone` gives a path that holds the same.
pub assume_specification[ <PathBuf as Clone>::clone ](path: &PathBuf) -> (copy: PathBuf)
    ensures
        path_bytes(copy) == path_bytes(*path),
;

/// Calls `dirs::home_dir`, which asks the environment for the user's home
/// directory. Nothing is known of the answer.
#[verifier::external_body]
pub(crate) fn home_dir() -> Option<PathBuf> {
    dirs::home_dir()
}

/// The configuration file that belongs to a home directory.
pub fn config_path_in(home: Option<PathBuf>) -> (path: PathBuf)
    ensures
        path_bytes(path) == default_config_path(home_bytes(home)),
{
    let mut path = path_from_text("");
    match home {
        Some(home) => push_path(&mut path, &home),
        None => {
            let here = path_from_text("./");
            push_path(&mut path, &here)
        },
    };
    let file = path_from_text(".culper.toml");
    push_path(&mut path, &file);
    path
}

/// The configuration file of the user who runs the program. Which home
/// directory the environment names is not known beforehand, so the result is
/// the file for one of them, or for none.
pub(crate) fn get_config_path() -> (path: PathBuf)
    ensures
        exists|home: Option<Seq<u8>>| path_bytes(path) == #[trigger] default_config_path(home),
{
    config_path_in(home_dir())
}

} // verus!
