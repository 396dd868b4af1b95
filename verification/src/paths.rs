//! Where the applet's data files are looked for.
//!
//! Reading the environment and the disk is left to the caller. This module
//! puts the candidate paths together, in the order in which they count,
//! and picks among them once the caller has said which exist.

use crate::text::{chars_of, push_text};
use vstd::prelude::*;

verus! {

/// Name of the applet's directory under a data directory.
pub const APP_DIR: &'static str = "cosmic-applet-timeplus";

/// The applet's directory below a home directory.
pub const HOME_DATA_DIR: &'static str = ".local/share/cosmic-applet-timeplus";

/// The applet's data directory inside a Flatpak.
pub const FLATPAK_DATA_DIR: &'static str = "/app/share/cosmic-applet-timeplus";

/// The applet's data directory as the system installs it.
pub const SYSTEM_DATA_DIR: &'static str = "/usr/share/cosmic-applet-timeplus";

/// Directory of the sounds below the data directory.
pub const SOUNDS_DIR: &'static str = "sounds";

/// Where sounds are looked for when no data directory has them.
pub const LOCAL_SOUNDS_DIR: &'static str = "./assets/sounds";

/// A path with one more component: an absolute component stands for
/// itself, any other follows the path after a single slash.
pub open spec fn joined(base: Seq<char>, leaf: Seq<char>) -> Seq<char> {
    if leaf.len() > 0 && leaf[0] == '/' {
        leaf
    } else if base.len() == 0 || base.last() == '/' {
        base + leaf
    } else {
        base.push('/') + leaf
    }
}

/// Joins a component to a path.
pub fn join_path(base: &str, leaf: &str) -> (path: String)
    ensures
        path@ == joined(base@, leaf@),
{
    let leaf_chars = chars_of(leaf);
    if leaf_chars.len() > 0 && leaf_chars[0] == '/' {
        return leaf.to_owned();
    }
    let base_chars = chars_of(base);
    let mut path = base.to_owned();
    let n: usize = base_chars.len();
    if n > 0 && base_chars[n - 1] != '/' {
        path.push('/');
    }
    push_text(&mut path, leaf);
    path
}

/// A candidate directory and whether it was found on disk.
#[derive(Debug, Clone)]
pub struct DirProbe {
    pub path: String,
    pub exists: bool,
}

/// The directories in which the applet's data may lie, first choice
/// first: below the user's data directory, below the home directory,
/// inside a Flatpak, and installed with the system.
pub open spec fn candidates(xdg_data: Option<Seq<char>>, home: Option<Seq<char>>) -> Seq<
    Seq<char>,
> {
    let user: Seq<Seq<char>> = match xdg_data {
        Some(dir) => seq![joined(dir, APP_DIR@)],
        None => Seq::empty(),
    };
    let local: Seq<Seq<char>> = match home {
        Some(dir) => seq![joined(dir, HOME_DATA_DIR@)],
        None => Seq::empty(),
    };
    user + local + seq![FLATPAK_DATA_DIR@, SYSTEM_DATA_DIR@]
}

/// The path of the first probe that exists.
pub open spec fn first_existing(probes: Seq<DirProbe>) -> Option<Seq<char>>
    decreases probes.len(),
{
    if probes.len() == 0 {
        None
    } else if probes[0].exists {
        Some(probes[0].path@)
    } else {
        first_existing(probes.drop_first())
    }
}

/// The data directory: the override where one is set, whether or not it
/// exists, else the first candidate that exists.
pub open spec fn data_dir_of(env_override: Option<Seq<char>>, probes: Seq<DirProbe>) -> Option<
    Seq<char>,
> {
    match env_override {
        Some(dir) => Some(dir),
        None => first_existing(probes),
    }
}

/// Where a sound lies below a data directory.
pub open spec fn sound_in(data_dir: Seq<char>, name: Seq<char>) -> Seq<char> {
    joined(joined(data_dir, SOUNDS_DIR@), name)
}

/// The path of a sound: below the data directory where there is one and
/// the sound was found there, else below the local sounds directory.
pub open spec fn audio_path_of(name: Seq<char>, data_dir: Option<Seq<char>>, found: bool) -> Seq<
    char,
> {
    match data_dir {
        Some(dir) if found => sound_in(dir, name),
        _ => joined(LOCAL_SOUNDS_DIR@, name),
    }
}

/// The views of a list of paths.
pub open spec fn path_views(list: Seq<String>) -> Seq<Seq<char>> {
    Seq::new(list.len(), |i: int| list[i]@)
}

/// The candidate data directories for a user, given the user's data
/// directory and home directory where they are known.
pub fn data_dir_candidates(xdg_data: Option<&str>, home: Option<&str>) -> (list: Vec<String>)
    ensures
        path_views(list@) == candidates(
            crate::localize::text_of(xdg_data),
            crate::localize::text_of(home),
        ),
{
    let mut list: Vec<String> = Vec::new();
    if let Some(dir) = xdg_data {
        list.push(join_path(dir, APP_DIR));
    }
    if let Some(dir) = home {
        list.push(join_path(dir, HOME_DATA_DIR));
    }
    list.push(FLATPAK_DATA_DIR.to_owned());
    list.push(SYSTEM_DATA_DIR.to_owned());
    assert(path_views(list@) =~= candidates(
        crate::localize::text_of(xdg_data),
        crate::localize::text_of(home),
    ));
    list
}

/// Picks the data directory: the override from the environment where it
/// is set, else the first probed candidate that exists.
pub fn get_data_dir(env_override: Option<&str>, probes: &Vec<DirProbe>) -> (dir: Option<String>)
    ensures
        crate::localize::string_view(dir) == data_dir_of(
            crate::localize::text_of(env_override),
            probes@,
        ),
{
    if let Some(custom) = env_override {
        return Some(custom.to_owned());
    }
    let mut i: usize = 0;
    assert(probes@.skip(0) == probes@);
    while i < probes.len()
        invariant
            i <= probes.len(),
            env_override is None,
            first_existing(probes@.skip(i as int)) == first_existing(probes@),
        decreases probes.len() - i,
    {
        assert(probes@.skip(i as int)[0] == probes[i as int]);
        if probes[i].exists {
            return Some(probes[i].path.as_str().to_owned());
        }
        assert(probes@.skip(i as int).drop_first() == probes@.skip(i + 1));
        i += 1;
    }
    None
}

/// Where a sound would lie below a data directory. The caller looks
/// there before asking for the path to use.
pub fn audio_path_in(data_dir: &str, name: &str) -> (path: String)
    ensures
        path@ == sound_in(data_dir@, name@),
{
    let sounds = join_path(data_dir, SOUNDS_DIR);
    join_path(sounds.as_str(), name)
}

/// Gets the path of a sound file. `data_dir` is the data directory, if
/// there is one, and `found` says whether the sound exists below it.
/// Where it does not, the path below the local sounds directory is given.
pub fn get_audio_path(name: &str, data_dir: Option<&str>, found: bool) -> (path: String)
    ensures
        path@ == audio_path_of(name@, crate::localize::text_of(data_dir), found),
{
    if let Some(dir) = data_dir {
        if found {
            return audio_path_in(dir, name);
        }
    }
    join_path(LOCAL_SOUNDS_DIR, name)
}

} // verus!
