//! One download, as a state machine. The driver performs each action that
//! `step` returns (a filesystem query, a fetch, a directory operation, reading
//! or unpacking an archive entry) and hands the outcome back as the next event.
//! The final entry appears only through the single rename of a fully
//! extracted staging directory.
use crate::cache::Download;
use crate::error::CacheError;
use crate::paths::{file_name_of, join_path, join_str, stem_of};
use crate::select::{views, Selection};
use vstd::prelude::*;

verus! {

/// Where a download stands.
#[derive(Clone, Copy, PartialEq, Eq, Structural)]
pub enum Phase {
    /// Waiting to learn whether the cache entry exists.
    Lookup,
    /// Waiting for the archive's bytes.
    Fetch,
    /// Waiting for a fresh staging directory.
    Stage,
    /// Reading archive entries.
    Unpack,
    /// Waiting for the staging directory to be moved into place.
    Commit,
    /// Finished; no event is accepted.
    Done,
}

/// The outcome of the driver's last action.
pub enum Event {
    /// Whether the cache entry exists, for `CheckExists`.
    Exists(bool),
    /// Whether the fetch succeeded, for `Fetch`; the driver keeps the bytes.
    Fetched(Result<(), String>),
    /// Whether the staging directory was created afresh, for `Stage`.
    Staged(Result<(), String>),
    /// The path of the next archive entry, for `ReadArchive`, `Unpack` and `Skip`.
    Entry(String),
    /// The archive has no more entries.
    ArchiveEnd,
    /// Decoding the archive or unpacking an entry failed.
    ArchiveFault(String),
    /// Whether the rename succeeded, for `Commit`.
    Committed(Result<(), String>),
}

/// What the driver is to do next.
pub enum Action {
    /// Report whether a directory exists at this path.
    CheckExists(String),
    /// Fetch the bytes at this URL.
    Fetch(String),
    /// Remove any directory at this path, ignoring failure, then create it.
    Stage(String),
    /// Decode the fetched bytes as a gzip-compressed tarball and report its
    /// first entry.
    ReadArchive,
    /// Write the current entry's contents to this path, then report the next entry.
    Unpack(String),
    /// Leave the current entry unread, then report the next entry.
    Skip,
    /// Rename the directory `from` to `to`.
    Commit { from: String, to: String },
    /// Terminate the process with this message: the URL names no supported
    /// archive format.
    Abort(String),
    /// The download is over, with this result.
    Finish(Result<Option<Download>, CacheError>),
}

/// The suffix of the URLs whose archives can be extracted.
pub open spec fn tarball_suffix() -> Seq<char> {
    ".tar.gz"@
}

/// Whether `s` ends with `suffix`.
pub open spec fn has_suffix(s: Seq<char>, suffix: Seq<char>) -> bool {
    suffix.len() <= s.len() && s.subrange(s.len() - suffix.len(), s.len() as int) == suffix
}

/// Whether `s` ends with `suffix`.
pub fn ends_with(s: &str, suffix: &str) -> (r: bool)
    ensures
        r == has_suffix(s@, suffix@),
{
    let n = s.unicode_len();
    let m = suffix.unicode_len();
    if m > n {
        return false;
    }
    let mut i: usize = 0;
    while i < m
        invariant
            i <= m <= n,
            n == s@.len(),
            m == suffix@.len(),
            forall|k: int| 0 <= k < i ==> s@[n - m + k] == suffix@[k],
        decreases m - i,
    {
        if s.get_char(n - m + i) != suffix.get_char(i) {
            proof {
                assert(s@.subrange(n - m, n as int)[i as int] != suffix@[i as int]);
            }
            return false;
        }
        i = i + 1;
    }
    proof {
        assert(s@.subrange(n - m, n as int) =~= suffix@);
    }
    true
}

/// Whether an HTTP response status means the fetch succeeded: any 2xx status.
pub open spec fn status_succeeded(code: u32) -> bool {
    200 <= code < 300
}

/// Whether the response status `code` of a fetch means success; any other
/// status is reported as `Event::Fetched(Err(..))`.
pub fn is_success_status(code: u32) -> (r: bool)
    ensures
        r == status_succeeded(code),
{
    200 <= code && code < 300
}

/// A download in progress.
pub struct DownloadSession {
    install_permitted: bool,
    url: String,
    destination: String,
    staging: String,
    selection: Selection,
    phase: Phase,
    requested: Ghost<Set<Seq<char>>>,
    unpacked: Ghost<Set<Seq<char>>>,
}

impl DownloadSession {
    /// Whether fetching is allowed on a miss.
    pub closed spec fn permitted(&self) -> bool {
        self.install_permitted
    }

    /// The URL of the archive.
    pub closed spec fn url(&self) -> Seq<char> {
        self.url@
    }

    /// The path of the cache entry.
    pub closed spec fn destination(&self) -> Seq<char> {
        self.destination@
    }

    /// The path of the staging directory.
    pub closed spec fn staging(&self) -> Seq<char> {
        self.staging@
    }

    /// The binary names not yet found in the archive.
    pub closed spec fn wanted(&self) -> Set<Seq<char>> {
        self.selection.wanted()
    }

    /// Where the download stands.
    pub closed spec fn phase(&self) -> Phase {
        self.phase
    }

    /// The binary names asked for when the session began.
    pub closed spec fn requested(&self) -> Set<Seq<char>> {
        self.requested@
    }

    /// The stems of the entries unpacked so far.
    pub closed spec fn unpacked(&self) -> Set<Seq<char>> {
        self.unpacked@
    }

    /// The session's invariant: every requested name is either still wanted
    /// or has had an entry unpacked for it.
    pub closed spec fn wf(&self) -> bool {
        &&& self.selection.wf()
        &&& self.requested@ == self.selection.wanted().union(self.unpacked@)
    }

    /// Whether the session has not yet taken any event.
    pub open spec fn is_starting(&self) -> bool {
        self.phase() == Phase::Lookup
    }

    /// The events that the session takes in its current phase.
    pub open spec fn accepts_spec(&self, e: &Event) -> bool {
        match self.phase() {
            Phase::Lookup => e is Exists,
            Phase::Fetch => e is Fetched,
            Phase::Stage => e is Staged,
            Phase::Unpack => e is Entry || e is ArchiveEnd || e is ArchiveFault,
            Phase::Commit => e is Committed,
            Phase::Done => false,
        }
    }

    pub(crate) fn new(
        install_permitted: bool,
        url: &str,
        destination: String,
        staging: String,
        binaries: &Vec<String>,
    ) -> (r: DownloadSession)
        ensures
            r.wf(),
            r.is_starting(),
            r.permitted() == install_permitted,
            r.url() == url@,
            r.destination() == destination@,
            r.staging() == staging@,
            r.wanted() == views(binaries@).to_set(),
            r.requested() == views(binaries@).to_set(),
            r.unpacked() == Set::<Seq<char>>::empty(),
    {
        let selection = Selection::new(binaries);
        proof {
            assert(selection.wanted().union(Set::<Seq<char>>::empty()) =~= selection.wanted());
        }
        DownloadSession {
            install_permitted,
            url: String::from_str(url),
            destination,
            staging,
            selection,
            phase: Phase::Lookup,
            requested: Ghost(views(binaries@).to_set()),
            unpacked: Ghost(Set::empty()),
        }
    }

    /// Where the download stands.
    pub fn current_phase(&self) -> (r: Phase)
        ensures
            r == self.phase(),
    {
        self.phase
    }

    /// Whether `step` takes `e` now.
    pub fn accepts(&self, e: &Event) -> (r: bool)
        ensures
            r == self.accepts_spec(e),
    {
        match self.phase {
            Phase::Lookup => matches!(e, Event::Exists(_)),
            Phase::Fetch => matches!(e, Event::Fetched(_)),
            Phase::Stage => matches!(e, Event::Staged(_)),
            Phase::Unpack => matches!(e, Event::Entry(_) | Event::ArchiveEnd | Event::ArchiveFault(_)),
            Phase::Commit => matches!(e, Event::Committed(_)),
            Phase::Done => false,
        }
    }

    /// The first action: look for the cache entry.
    pub fn start(&self) -> (a: Action)
        ensures
            a matches Action::CheckExists(p) && p@ == self.destination(),
    {
        Action::CheckExists(self.destination.clone())
    }

    fn finish_with_entry(&mut self) -> (a: Action)
        ensures
            *final(self) == (DownloadSession { phase: Phase::Done, ..*old(self) }),
            a matches Action::Finish(Ok(Some(d))) && d@ == old(self).destination(),
    {
        self.phase = Phase::Done;
        Action::Finish(Ok(Some(Download::from_string(self.destination.clone()))))
    }

    /// Takes the outcome of the last action and returns the next action.
    pub fn step(&mut self, event: Event) -> (a: Action)
        requires
            old(self).wf(),
            old(self).accepts_spec(&event),
        ensures
            final(self).wf(),
            final(self).permitted() == old(self).permitted(),
            final(self).url() == old(self).url(),
            final(self).destination() == old(self).destination(),
            final(self).staging() == old(self).staging(),
            final(self).requested() == old(self).requested(),
            !(event is Entry) ==> final(self).unpacked() == old(self).unpacked(),
            !(event is Entry) ==> final(self).wanted() == old(self).wanted(),
            // A cache entry that exists is handed back without a fetch.
            event matches Event::Exists(true) ==> final(self).phase() == Phase::Done
                && (a matches Action::Finish(Ok(Some(d))) && d@ == old(self).destination()),
            // A miss without permission to install is no error and touches nothing.
            (event matches Event::Exists(false) && !old(self).permitted())
                ==> final(self).phase() == Phase::Done && a matches Action::Finish(Ok(None)),
            (event matches Event::Exists(false) && old(self).permitted())
                ==> final(self).phase() == Phase::Fetch
                && (a matches Action::Fetch(u) && u@ == old(self).url()),
            event matches Event::Fetched(Err(c)) ==> final(self).phase() == Phase::Done
                && (a matches Action::Finish(Err(CacheError::DownloadFailed { url, cause }))
                && url@ == old(self).url() && cause@ == c@),
            event matches Event::Fetched(Ok(_)) ==> final(self).phase() == Phase::Stage
                && (a matches Action::Stage(p) && p@ == old(self).staging()),
            event matches Event::Staged(Err(c)) ==> final(self).phase() == Phase::Done
                && (a matches Action::Finish(Err(CacheError::StagingFailed { url, cause }))
                && url@ == old(self).url() && cause@ == c@),
            (event matches Event::Staged(Ok(_)) && has_suffix(old(self).url(), tarball_suffix()))
                ==> final(self).phase() == Phase::Unpack && a is ReadArchive
                && final(self).wanted() == old(self).wanted(),
            // Any other format is a fault of the caller's build, not an error value.
            (event matches Event::Staged(Ok(_)) && !has_suffix(old(self).url(), tarball_suffix()))
                ==> final(self).phase() == Phase::Done
                && (a matches Action::Abort(m)
                && m@ == "don't know how to extract "@ + old(self).url()),
            event matches Event::Entry(p) ==> final(self).phase() == Phase::Unpack
                && match file_name_of(p@) {
                Some(n) => if old(self).wanted().contains(stem_of(n)) {
                    &&& (a matches Action::Unpack(t) && t@ == join_path(old(self).staging(), n))
                    &&& final(self).wanted() == old(self).wanted().remove(stem_of(n))
                    &&& final(self).unpacked() == old(self).unpacked().insert(stem_of(n))
                } else {
                    &&& a is Skip
                    &&& final(self).wanted() == old(self).wanted()
                    &&& final(self).unpacked() == old(self).unpacked()
                },
                None => {
                    &&& a is Skip
                    &&& final(self).wanted() == old(self).wanted()
                    &&& final(self).unpacked() == old(self).unpacked()
                },
            },
            event matches Event::ArchiveFault(c) ==> final(self).phase() == Phase::Done
                && (a matches Action::Finish(Err(CacheError::ExtractFailed { url, cause }))
                && url@ == old(self).url() && cause@ == c@),
            (event is ArchiveEnd && old(self).wanted() == Set::<Seq<char>>::empty())
                ==> final(self).phase() == Phase::Commit
                && (a matches Action::Commit { from, to } && from@ == old(self).staging()
                && to@ == old(self).destination()),
            // The staged entry is committed only once an entry was unpacked for
            // every requested name.
            a is Commit ==> old(self).requested().subset_of(old(self).unpacked()),
            // An archive that lacks requested binaries names exactly those.
            (event is ArchiveEnd && old(self).wanted() != Set::<Seq<char>>::empty())
                ==> final(self).phase() == Phase::Done
                && (a matches Action::Finish(Err(CacheError::MissingExecutables { url, names }))
                && url@ == old(self).url() && views(names@).no_duplicates()
                && views(names@).to_set() == old(self).wanted()),
            event matches Event::Committed(Err(c)) ==> final(self).phase() == Phase::Done
                && (a matches Action::Finish(Err(CacheError::CommitFailed { url, cause }))
                && url@ == old(self).url() && cause@ == c@),
            event matches Event::Committed(Ok(_)) ==> final(self).phase() == Phase::Done
                && (a matches Action::Finish(Ok(Some(d))) && d@ == old(self).destination()),
    {
        match event {
            Event::Exists(found) => {
                if found {
                    self.finish_with_entry()
                } else if !self.install_permitted {
                    self.phase = Phase::Done;
                    Action::Finish(Ok(None))
                } else {
                    self.phase = Phase::Fetch;
                    Action::Fetch(self.url.clone())
                }
            },
            Event::Fetched(Err(cause)) => {
                self.phase = Phase::Done;
                Action::Finish(Err(CacheError::DownloadFailed { url: self.url.clone(), cause }))
            },
            Event::Fetched(Ok(())) => {
                self.phase = Phase::Stage;
                Action::Stage(self.staging.clone())
            },
            Event::Staged(Err(cause)) => {
                self.phase = Phase::Done;
                Action::Finish(Err(CacheError::StagingFailed { url: self.url.clone(), cause }))
            },
            Event::Staged(Ok(())) => {
                proof {
                    reveal_strlit(".tar.gz");
                }
                if ends_with(self.url.as_str(), ".tar.gz") {
                    self.phase = Phase::Unpack;
                    Action::ReadArchive
                } else {
                    self.phase = Phase::Done;
                    let mut m = String::from_str("don't know how to extract ");
                    m.append(self.url.as_str());
                    Action::Abort(m)
                }
            },
            Event::Entry(path) => {
                let ghost before = self.selection.wanted();
                match self.selection.offer(path.as_str()) {
                    Some(name) => {
                        let ghost stem = stem_of(name@);
                        proof {
                            self.unpacked@ = self.unpacked@.insert(stem);
                            assert(self.selection.wanted().union(self.unpacked@) =~= before.union(
                                old(self).unpacked@,
                            ));
                        }
                        Action::Unpack(join_str(self.staging.as_str(), name.as_str()))
                    },
                    None => Action::Skip,
                }
            },
            Event::ArchiveFault(cause) => {
                self.phase = Phase::Done;
                Action::Finish(Err(CacheError::ExtractFailed { url: self.url.clone(), cause }))
            },
            Event::ArchiveEnd => {
                if self.selection.is_complete() {
                    proof {
                        assert(self.requested@ =~= Set::<Seq<char>>::empty().union(self.unpacked@));
                    }
                    self.phase = Phase::Commit;
                    Action::Commit { from: self.staging.clone(), to: self.destination.clone() }
                } else {
                    self.phase = Phase::Done;
                    let names = self.selection.missing();
                    Action::Finish(
                        Err(CacheError::MissingExecutables { url: self.url.clone(), names }),
                    )
                }
            },
            Event::Committed(Err(cause)) => {
                self.phase = Phase::Done;
                Action::Finish(Err(CacheError::CommitFailed { url: self.url.clone(), cause }))
            },
            Event::Committed(Ok(())) => self.finish_with_entry(),
        }
    }
}

} // verus!
