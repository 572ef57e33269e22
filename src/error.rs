//! The errors of the cache, and their messages.
use crate::select::views;
use vstd::prelude::*;

verus! {

/// Why a cache operation failed.
pub enum CacheError {
    /// Neither a cache directory nor a home directory could be found.
    NoCacheDir,
    /// Fetching `url` failed.
    DownloadFailed { url: String, cause: String },
    /// Creating the staging directory for `url` failed.
    StagingFailed { url: String, cause: String },
    /// Decoding or unpacking the archive fetched from `url` failed.
    ExtractFailed { url: String, cause: String },
    /// The archive fetched from `url` lacked the binaries `names`.
    MissingExecutables { url: String, names: Vec<String> },
    /// Moving the staged entry for `url` into place failed.
    CommitFailed { url: String, cause: String },
    /// No regular file stands at `path`.
    BinaryMissing { path: String },
    /// The file at `path` is not executable.
    NotExecutable { path: String },
}

/// `names` separated by a comma and a space.
pub open spec fn comma_joined(names: Seq<Seq<char>>) -> Seq<char>
    decreases names.len(),
{
    if names.len() == 0 {
        seq![]
    } else if names.len() == 1 {
        names[0]
    } else {
        comma_joined(names.drop_last()) + seq![',', ' '] + names.last()
    }
}

/// The message of an error, as a sequence of characters.
pub open spec fn message_of(e: CacheError) -> Seq<char> {
    match e {
        CacheError::NoCacheDir => "couldn't find your home directory, is $HOME not set?"@,
        CacheError::DownloadFailed { url, .. } => "failed to download from "@ + url@,
        CacheError::StagingFailed { url, .. } => "failed to create a staging directory for "@
            + url@,
        CacheError::ExtractFailed { url, .. } => "failed to extract tarball from "@ + url@,
        CacheError::MissingExecutables { url, .. } => "failed to extract tarball from "@ + url@,
        CacheError::CommitFailed { url, .. } => "failed to move the download into place for "@
            + url@,
        CacheError::BinaryMissing { path } => path@ + " binary does not exist"@,
        CacheError::NotExecutable { path } => path@ + " is not executable"@,
    }
}

/// The underlying cause of an error, where it has one.
pub open spec fn cause_of(e: CacheError) -> Seq<char> {
    match e {
        CacheError::DownloadFailed { cause, .. } => cause@,
        CacheError::StagingFailed { cause, .. } => cause@,
        CacheError::ExtractFailed { cause, .. } => cause@,
        CacheError::MissingExecutables { names, .. } =>
            "the tarball was missing expected executables: "@ + comma_joined(views(names@)),
        CacheError::CommitFailed { cause, .. } => cause@,
        _ => seq![],
    }
}

/// `prefix` followed by `s`.
fn prefixed(prefix: &str, s: &String) -> (r: String)
    ensures
        r@ == prefix@ + s@,
{
    let mut r = String::from_str(prefix);
    r.append(s.as_str());
    r
}

/// `s` followed by `suffix`.
fn suffixed(s: &String, suffix: &str) -> (r: String)
    ensures
        r@ == s@ + suffix@,
{
    let mut r = s.clone();
    r.append(suffix);
    r
}

/// Joins `names` with a comma and a space.
pub fn join_names(names: &Vec<String>) -> (r: String)
    ensures
        r@ == comma_joined(views(names@)),
{
    let mut r = String::new();
    let mut i: usize = 0;
    while i < names.len()
        invariant
            i <= names.len(),
            r@ == comma_joined(views(names@.subrange(0, i as int))),
        decreases names.len() - i,
    {
        let ghost pre = views(names@.subrange(0, i as int));
        if i > 0 {
            r.append(", ");
        }
        r.append(names[i].as_str());
        proof {
            reveal_strlit(", ");
            let next = views(names@.subrange(0, i + 1));
            assert(next.drop_last() =~= pre);
            assert(next.last() == names@[i as int]@);
            if i == 0 {
                assert(r@ =~= next[0]);
            } else {
                assert(r@ =~= comma_joined(next));
            }
        }
        i = i + 1;
    }
    assert(names@.subrange(0, names.len() as int) =~= names@);
    r
}

impl CacheError {
    /// What went wrong, and where.
    pub fn message(&self) -> (r: String)
        ensures
            r@ == message_of(*self),
    {
        match self {
            CacheError::NoCacheDir => {
                String::from_str("couldn't find your home directory, is $HOME not set?")
            },
            CacheError::DownloadFailed { url, .. } => prefixed("failed to download from ", url),
            CacheError::StagingFailed { url, .. } => prefixed(
                "failed to create a staging directory for ",
                url,
            ),
            CacheError::ExtractFailed { url, .. } => prefixed(
                "failed to extract tarball from ",
                url,
            ),
            CacheError::MissingExecutables { url, .. } => prefixed(
                "failed to extract tarball from ",
                url,
            ),
            CacheError::CommitFailed { url, .. } => prefixed(
                "failed to move the download into place for ",
                url,
            ),
            CacheError::BinaryMissing { path } => suffixed(path, " binary does not exist"),
            CacheError::NotExecutable { path } => suffixed(path, " is not executable"),
        }
    }

    /// The underlying cause, or an empty string where there is none.
    pub fn cause(&self) -> (r: String)
        ensures
            r@ == cause_of(*self),
    {
        match self {
            CacheError::DownloadFailed { cause, .. } => cause.clone(),
            CacheError::StagingFailed { cause, .. } => cause.clone(),
            CacheError::ExtractFailed { cause, .. } => cause.clone(),
            CacheError::MissingExecutables { names, .. } => {
                let joined = join_names(names);
                prefixed("the tarball was missing expected executables: ", &joined)
            },
            CacheError::CommitFailed { cause, .. } => cause.clone(),
            _ => String::new(),
        }
    }
}

} // verus!
