//! The cache: a root directory holding one extracted archive per (name, URL),
//! and the handle to one such extracted archive.
use crate::error::CacheError;
use crate::key::{cache_key, hashed_dirname};
use crate::paths::{join_path, join_str};
use crate::session::DownloadSession;
use vstd::prelude::*;

verus! {

/// A cache rooted at a directory.
pub struct Cache {
    destination: String,
}

/// A directory that holds an extracted archive.
pub struct Download {
    root: String,
}

impl View for Cache {
    type V = Seq<char>;

    closed spec fn view(&self) -> Seq<char> {
        self.destination@
    }
}

impl View for Download {
    type V = Seq<char>;

    closed spec fn view(&self) -> Seq<char> {
        self.root@
    }
}

/// The directory name of a cache for `name`: the name behind a dot.
pub open spec fn dotted(name: Seq<char>) -> Seq<char> {
    seq!['.'] + name
}

/// The path of binary `name` in `root`, with the platform's executable
/// extension `ext` appended where it is not empty.
pub open spec fn binary_path_of(root: Seq<char>, name: Seq<char>, ext: Seq<char>) -> Seq<char> {
    if ext.len() == 0 {
        join_path(root, name)
    } else {
        join_path(root, name) + seq!['.'] + ext
    }
}

/// What stands at the path of a binary.
pub enum FileKind {
    /// No regular file.
    Missing,
    /// A regular file that is not executable.
    NotExecutable,
    /// An executable regular file.
    Executable,
}

/// `.` followed by `s`.
fn dot_prefixed(s: &str) -> (r: String)
    ensures
        r@ == dotted(s@),
{
    let mut r = String::from_str(".");
    proof {
        reveal_strlit(".");
    }
    r.append(s);
    r
}

/// Relies on `dirs::cache_dir`: the platform's cache directory, if one can be
/// found and is valid Unicode. A cache directory that is not valid Unicode is
/// reported as absent, so `Cache::new` then falls back to the home directory.
#[verifier::external_body]
fn platform_cache_dir() -> (r: Option<String>) {
    match dirs::cache_dir() {
        Some(p) => p.into_os_string().into_string().ok(),
        None => None,
    }
}

/// Relies on `dirs::home_dir`: the user's home directory, if one can be found
/// and is valid Unicode.
#[verifier::external_body]
fn platform_home_dir() -> (r: Option<String>) {
    match dirs::home_dir() {
        Some(p) => p.into_os_string().into_string().ok(),
        None => None,
    }
}

impl Cache {
    /// The cache for `name` in the platform's cache directory, or else in the
    /// home directory.
    pub fn new(name: &str) -> (r: Result<Cache, CacheError>)
        ensures
            r matches Ok(c) ==> exists|base: Seq<char>| c@ == join_path(base, dotted(name@)),
            r matches Err(e) ==> e is NoCacheDir,
    {
        let cache_dir = platform_cache_dir();
        let home_dir = if cache_dir.is_none() {
            platform_home_dir()
        } else {
            None
        };
        Cache::in_base_dir(name, cache_dir, home_dir)
    }

    /// The cache for `name` under `cache_dir`, or else under `home_dir`.
    pub fn in_base_dir(name: &str, cache_dir: Option<String>, home_dir: Option<String>) -> (r:
        Result<Cache, CacheError>)
        ensures
            match (cache_dir, home_dir) {
                (Some(c), _) => r matches Ok(k) && k@ == join_path(c@, dotted(name@)),
                (None, Some(h)) => r matches Ok(k) && k@ == join_path(h@, dotted(name@)),
                (None, None) => r matches Err(e) && e is NoCacheDir,
            },
    {
        let cache_name = dot_prefixed(name);
        match cache_dir {
            Some(c) => Ok(Cache { destination: join_str(c.as_str(), cache_name.as_str()) }),
            None => match home_dir {
                Some(h) => Ok(Cache { destination: join_str(h.as_str(), cache_name.as_str()) }),
                None => Err(CacheError::NoCacheDir),
            },
        }
    }

    /// A cache rooted at `path`.
    pub fn at(path: &str) -> (r: Cache)
        ensures
            r@ == path@,
    {
        Cache { destination: String::from_str(path) }
    }

    /// The root directory of this cache.
    pub fn destination(&self) -> (r: String)
        ensures
            r@ == self@,
    {
        self.destination.clone()
    }

    /// `path` joined onto the root of this cache.
    pub fn join(&self, path: &str) -> (r: String)
        ensures
            r@ == join_path(self@, path@),
    {
        join_str(self.destination.as_str(), path)
    }

    /// Starts downloading the archive at `url` into this cache as `name`,
    /// expecting it to hold `binaries`. The session's first action is to look
    /// for the cache entry.
    pub fn download(&self, install_permitted: bool, name: &str, binaries: &Vec<String>, url: &str) -> (r:
        DownloadSession)
        ensures
            r.wf(),
            r.is_starting(),
            r.permitted() == install_permitted,
            r.url() == url@,
            r.destination() == join_path(self@, cache_key(url@, name@)),
            r.staging() == join_path(self@, dotted(cache_key(url@, name@))),
            r.wanted() == crate::select::views(binaries@).to_set(),
            r.requested() == crate::select::views(binaries@).to_set(),
            r.unpacked() == Set::<Seq<char>>::empty(),
    {
        let dirname = hashed_dirname(url, name);
        let destination = self.join(dirname.as_str());
        let hidden = dot_prefixed(dirname.as_str());
        let staging = self.join(hidden.as_str());
        DownloadSession::new(install_permitted, url, destination, staging, binaries)
    }
}

impl Download {
    /// A handle on the directory at `path`.
    pub fn at(path: &str) -> (r: Download)
        ensures
            r@ == path@,
    {
        Download { root: String::from_str(path) }
    }

    /// A handle on the directory at `path`.
    pub fn from_string(path: String) -> (r: Download)
        ensures
            r@ == path@,
    {
        Download { root: path }
    }

    /// The directory of this download.
    pub fn root(&self) -> (r: String)
        ensures
            r@ == self@,
    {
        self.root.clone()
    }

    /// Where binary `name` would stand, given the platform's executable
    /// extension `exe_extension`.
    pub fn binary_path(&self, name: &str, exe_extension: &str) -> (r: String)
        ensures
            r@ == binary_path_of(self@, name@, exe_extension@),
    {
        let mut r = join_str(self.root.as_str(), name);
        if exe_extension.unicode_len() > 0 {
            proof {
                reveal_strlit(".");
            }
            r.append(".");
            r.append(exe_extension);
        }
        r
    }

    /// The path of binary `name`, given what `found` stands at
    /// `binary_path(name, exe_extension)`.
    pub fn binary(&self, name: &str, exe_extension: &str, found: FileKind) -> (r: Result<
        String,
        CacheError,
    >)
        ensures
            match found {
                FileKind::Executable => r matches Ok(p) && p@ == binary_path_of(
                    self@,
                    name@,
                    exe_extension@,
                ),
                FileKind::Missing => r matches Err(CacheError::BinaryMissing { path }) && path@
                    == binary_path_of(self@, name@, exe_extension@),
                FileKind::NotExecutable => r matches Err(CacheError::NotExecutable { path })
                    && path@ == binary_path_of(self@, name@, exe_extension@),
            },
    {
        let path = self.binary_path(name, exe_extension);
        match found {
            FileKind::Executable => Ok(path),
            FileKind::Missing => Err(CacheError::BinaryMissing { path }),
            FileKind::NotExecutable => Err(CacheError::NotExecutable { path }),
        }
    }
}

} // verus!
