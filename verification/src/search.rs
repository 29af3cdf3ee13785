//! Where files are looked for: the list of places, and the path of a
//! file in one of them.

use vstd::prelude::*;
use vstd::string::*;

verus! {

/// Where a place to look for files is taken from.
#[derive(Debug, Clone, Copy)]
pub enum SearchRoot {
    /// The directory of the program's own files.
    ExeDir,
    /// The current directory.
    Nowhere,
    /// The directory that an environment variable names.
    Env(&'static str),
    /// A fixed directory.
    Absolute(&'static str),
}

/// A place to look for files: a root, and perhaps a directory below it.
#[derive(Debug, Clone, Copy)]
pub struct SearchPath {
    pub root: SearchRoot,
    pub subdir: Option<&'static str>,
}

/// The directory of game data that the program was built for.
pub const DOOMWADDIR: &'static str = "/usr/share/games/doom";

/// The places where files are looked for, in the order in which they
/// are tried.
pub open spec fn standard_places() -> Seq<SearchPath> {
    seq![
        SearchPath { root: SearchRoot::ExeDir, subdir: None },
        SearchPath { root: SearchRoot::Nowhere, subdir: None },
        SearchPath { root: SearchRoot::Env("DOOMWADDIR"), subdir: None },
        SearchPath { root: SearchRoot::Absolute(DOOMWADDIR), subdir: None },
        SearchPath { root: SearchRoot::Env("HOME"), subdir: Some("doom") },
        SearchPath { root: SearchRoot::Env("HOME"), subdir: Some("doom/iwad") },
        SearchPath { root: SearchRoot::Env("HOME"), subdir: Some("doom/pwad/all") },
        SearchPath { root: SearchRoot::Env("HOME"), subdir: None },
        SearchPath { root: SearchRoot::Absolute("/usr/local/share/games/doom"), subdir: None },
        SearchPath { root: SearchRoot::Absolute("/usr/share/games/doom"), subdir: None },
        SearchPath { root: SearchRoot::Absolute("/usr/local/share/doom"), subdir: None },
        SearchPath { root: SearchRoot::Absolute("/usr/share/doom"), subdir: None },
    ]
}

/// The places where files are looked for.
pub fn standard_search_paths() -> (places: Vec<SearchPath>)
    ensures
        places@ == standard_places(),
{
    let mut places: Vec<SearchPath> = Vec::new();
    places.push(SearchPath { root: SearchRoot::ExeDir, subdir: None });
    places.push(SearchPath { root: SearchRoot::Nowhere, subdir: None });
    places.push(SearchPath { root: SearchRoot::Env("DOOMWADDIR"), subdir: None });
    places.push(SearchPath { root: SearchRoot::Absolute(DOOMWADDIR), subdir: None });
    places.push(SearchPath { root: SearchRoot::Env("HOME"), subdir: Some("doom") });
    places.push(SearchPath { root: SearchRoot::Env("HOME"), subdir: Some("doom/iwad") });
    places.push(SearchPath { root: SearchRoot::Env("HOME"), subdir: Some("doom/pwad/all") });
    places.push(SearchPath { root: SearchRoot::Env("HOME"), subdir: None });
    places.push(
        SearchPath { root: SearchRoot::Absolute("/usr/local/share/games/doom"), subdir: None },
    );
    places.push(SearchPath { root: SearchRoot::Absolute("/usr/share/games/doom"), subdir: None });
    places.push(SearchPath { root: SearchRoot::Absolute("/usr/local/share/doom"), subdir: None });
    places.push(SearchPath { root: SearchRoot::Absolute("/usr/share/doom"), subdir: None });
    assert(places@ =~= standard_places());
    places
}

/// Whether the last byte of a text is a slash.
pub open spec fn ends_in_slash(s: &str) -> bool {
    s.spec_bytes().len() > 0 && s.spec_bytes().last() == 0x2f
}

/// Whether a directory name ends in a slash already.
pub fn has_trailing_slash(s: &str) -> (r: bool)
    ensures
        r == ends_in_slash(s),
{
    let bytes = s.as_bytes();
    bytes.len() > 0 && bytes[bytes.len() - 1] == 0x2f
}

/// A directory name as the beginning of a path: with a slash behind it,
/// where it has none yet. No directory gives an empty beginning.
pub open spec fn as_prefix(dir: Option<&str>) -> Seq<char> {
    match dir {
        Some(d) => if ends_in_slash(d) {
            d@
        } else {
            d@ + "/"@
        },
        None => Seq::<char>::empty(),
    }
}

/// Writes a directory name as the beginning of a path behind a text.
fn push_prefix(path: &mut String, dir: Option<&str>)
    ensures
        final(path)@ == old(path)@ + as_prefix(dir),
{
    match dir {
        Some(d) => {
            path.append(d);
            if !has_trailing_slash(d) {
                path.append("/");
            }
            assert(path@ =~= old(path)@ + as_prefix(dir));
        },
        None => {
            assert(path@ =~= old(path)@ + as_prefix(dir));
        },
    }
}

/// The path of the file `name` in the directory `dir` and, below it, in
/// the directory `subdir`.
pub fn search_path(dir: Option<&str>, subdir: Option<&str>, name: &str) -> (path: String)
    ensures
        path@ == as_prefix(dir) + as_prefix(subdir) + name@,
{
    let mut path = String::new();
    push_prefix(&mut path, dir);
    push_prefix(&mut path, subdir);
    path.append(name);
    assert(path@ =~= as_prefix(dir) + as_prefix(subdir) + name@);
    path
}

} // verus!
