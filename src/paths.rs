use vstd::prelude::*;

use std::path::PathBuf;

verus! {

#[verifier::external_type_specification]
#[verifier::external_body]
pub struct ExPathBuf(PathBuf);

/// Name of the directory, under the home directory, that holds both files.
pub const CONFIG_DIR_NAME: &'static str = ".dtdrafts";

/// Name of the file that holds the configuration.
pub const CONFIG_FILE_NAME: &'static str = "config.json";

/// Name of the file that holds the cached articles.
pub const CACHE_FILE_NAME: &'static str = "articles_cache.json";

/// Why a location could not be worked out.
#[derive(Debug, PartialEq, Eq)]
pub enum PathError {
    /// The user's home directory is unknown.
    NoHomeDirectory,
}

/// Relies on `dirs::home_dir`: the user's home directory, if the platform
/// reports one. It depends on the environment, so nothing is promised of it.
#[verifier::external_body]
fn home_dir() -> (r: Option<PathBuf>) {
    dirs::home_dir()
}

/// The path that `PathBuf::push` makes of `base` and the component `name`.
pub uninterp spec fn pushed(base: PathBuf, name: Seq<char>) -> PathBuf;

/// Relies on `PathBuf::push`: extends the path by one component. What it
/// makes depends on the path and the component alone.
#[verifier::external_body]
fn push_component(path: &mut PathBuf, name: &str)
    ensures
        *final(path) == pushed(*old(path), name@),
{
    path.push(name)
}

/// The directory that holds the configuration and the cache, given the
/// user's home directory: the home directory extended by `CONFIG_DIR_NAME`,
/// or an error exactly when the home directory is unknown.
pub fn config_dir_under(home: Option<PathBuf>) -> (r: Result<PathBuf, PathError>)
    ensures
        home matches Some(h) ==> r == Ok::<PathBuf, PathError>(pushed(h, CONFIG_DIR_NAME@)),
        home is None ==> r == Err::<PathBuf, PathError>(PathError::NoHomeDirectory),
{
    match home {
        Some(mut dir) => {
            push_component(&mut dir, CONFIG_DIR_NAME);
            Ok(dir)
        },
        None => Err(PathError::NoHomeDirectory),
    }
}

/// The directory that holds the configuration and the cache: some home
/// directory extended by `CONFIG_DIR_NAME`, or the error for an unknown one.
pub fn get_config_dir() -> (r: Result<PathBuf, PathError>)
    ensures
        r matches Ok(d) ==> exists|h: PathBuf| d == pushed(h, CONFIG_DIR_NAME@),
        r is Err ==> r == Err::<PathBuf, PathError>(PathError::NoHomeDirectory),
{
    config_dir_under(home_dir())
}

/// The configuration file inside the directory `dir`.
pub fn config_file_in(dir: PathBuf) -> (r: PathBuf)
    ensures
        r == pushed(dir, CONFIG_FILE_NAME@),
{
    let mut file = dir;
    push_component(&mut file, CONFIG_FILE_NAME);
    file
}

/// The cache file inside the directory `dir`.
pub fn cache_file_in(dir: PathBuf) -> (r: PathBuf)
    ensures
        r == pushed(dir, CACHE_FILE_NAME@),
{
    let mut file = dir;
    push_component(&mut file, CACHE_FILE_NAME);
    file
}

/// The file that holds the configuration: `CONFIG_FILE_NAME` in the
/// configuration directory, or the error for an unknown home directory.
pub fn get_config_file() -> (r: Result<PathBuf, PathError>)
    ensures
        r matches Ok(f) ==> exists|h: PathBuf| f == pushed(pushed(h, CONFIG_DIR_NAME@), CONFIG_FILE_NAME@),
        r is Err ==> r == Err::<PathBuf, PathError>(PathError::NoHomeDirectory),
{
    let dir = get_config_dir()?;
    Ok(config_file_in(dir))
}

/// The file that holds the cached articles: `CACHE_FILE_NAME` in the
/// configuration directory, or the error for an unknown home directory.
pub fn get_cache_file() -> (r: Result<PathBuf, PathError>)
    ensures
        r matches Ok(f) ==> exists|h: PathBuf| f == pushed(pushed(h, CONFIG_DIR_NAME@), CACHE_FILE_NAME@),
        r is Err ==> r == Err::<PathBuf, PathError>(PathError::NoHomeDirectory),
{
    let dir = get_config_dir()?;
    Ok(cache_file_in(dir))
}

/// The configuration file and the cache file have different names. Both
/// are pushed onto the configuration directory (see `config_file_in` and
/// `cache_file_in`), so they lie side by side and never coincide by name.
pub proof fn lemma_file_names_differ()
    ensures
        CONFIG_FILE_NAME@ != CACHE_FILE_NAME@,
{
    reveal_strlit("config.json");
    reveal_strlit("articles_cache.json");
    assert(CONFIG_FILE_NAME@.len() != CACHE_FILE_NAME@.len());
}

} // verus!
