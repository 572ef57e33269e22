use binary_install_async::cache::FileKind;
use binary_install_async::key::dirname_from_digest;
use binary_install_async::session::is_success_status;
use binary_install_async::{hashed_dirname, Action, Cache, CacheError, Download, Event, Phase};
use siphasher::sip::SipHasher13;
use std::hash::{Hash, Hasher};
use std::path::{Path, PathBuf};

fn names(list: &[&str]) -> Vec<String> {
    list.iter().map(|s| s.to_string()).collect()
}

#[test]
fn it_returns_same_hash_for_same_name_and_url() {
    let name = "wasm-pack";
    let url = "http://localhost:7878/wasm-pack-v0.6.0.tar.gz";

    let first = hashed_dirname(url, name);
    let second = hashed_dirname(url, name);

    assert!(!first.is_empty());
    assert!(!second.is_empty());
    assert_eq!(first, second);
}

#[test]
fn it_returns_different_hashes_for_different_urls() {
    let name = "wasm-pack";
    let url = "http://localhost:7878/wasm-pack-v0.5.1.tar.gz";
    let second_url = "http://localhost:7878/wasm-pack-v0.6.0.tar.gz";

    let first = hashed_dirname(url, name);
    let second = hashed_dirname(second_url, name);

    assert_ne!(first, second);
}

#[test]
fn hashed_dirname_is_name_dash_little_endian_hex_of_digest() {
    let url = "http://localhost:7878/wasm-pack-v0.6.0.tar.gz";
    let mut hasher = SipHasher13::new();
    url.hash(&mut hasher);
    let digest = hasher.finish();
    let mut hex = String::new();
    for b in digest.to_le_bytes().iter() {
        hex.push_str(&format!("{:02x}", b));
    }
    let key = hashed_dirname(url, "wasm-pack");
    assert_eq!(key, format!("wasm-pack-{}", hex));
    assert_eq!(key.len(), "wasm-pack".len() + 17);
}

#[test]
fn hashed_dirname_ignores_name_in_the_digest() {
    let url = "http://example.com/a.tar.gz";
    let a = hashed_dirname(url, "one");
    let b = hashed_dirname(url, "two");
    assert_eq!(&a["one".len()..], &b["two".len()..]);
}

#[test]
fn it_returns_cache_dir() {
    let name = "wasm-pack";
    let cache = Cache::new(name);

    let expected = dirs::cache_dir()
        .unwrap()
        .join(PathBuf::from(".".to_owned() + name));

    assert!(cache.is_ok());
    assert_eq!(PathBuf::from(cache.ok().unwrap().destination()), expected);
}

#[test]
fn it_joins_path_with_destination() {
    let dir = tempfile::TempDir::new().unwrap();
    let cache = Cache::at(dir.path().to_str().unwrap());

    assert_eq!(dir.path().join("hello"), PathBuf::from(cache.join("hello")));
}

#[test]
fn join_adds_one_separator() {
    assert_eq!(Cache::at("/tmp/c").join("x"), "/tmp/c/x");
    assert_eq!(Cache::at("/tmp/c/").join("x"), "/tmp/c/x");
    assert_eq!(Cache::at("").join("x"), "x");
    assert!(!Path::new("/no/such/dir/here").exists());
    assert_eq!(Cache::at("/no/such/dir/here").join("a/b"), "/no/such/dir/here/a/b");
}

#[test]
fn cache_in_base_dir_prefers_cache_dir_then_home() {
    let c = Cache::in_base_dir("wasm-pack", Some("/c".to_string()), Some("/h".to_string()));
    assert_eq!(c.ok().unwrap().destination(), "/c/.wasm-pack");
    let h = Cache::in_base_dir("wasm-pack", None, Some("/h".to_string()));
    assert_eq!(h.ok().unwrap().destination(), "/h/.wasm-pack");
    let none = Cache::in_base_dir("wasm-pack", None, None);
    assert!(matches!(none, Err(CacheError::NoCacheDir)));
}

fn expect_finish(a: Action) -> Result<Option<Download>, CacheError> {
    match a {
        Action::Finish(r) => r,
        _ => panic!("expected the download to finish"),
    }
}

#[test]
fn it_returns_none_if_install_is_not_permitted() {
    let binary_name = "wasm-pack";
    let binaries = names(&[binary_name]);

    let dir = tempfile::TempDir::new().unwrap();
    let cache = Cache::at(dir.path().to_str().unwrap());

    let url = format!("{}/{}.tar.gz", "", binary_name);
    let mut session = cache.download(false, binary_name, &binaries, &url);
    let dl = match session.start() {
        Action::CheckExists(p) => {
            let exists = Path::new(&p).exists();
            expect_finish(session.step(Event::Exists(exists)))
        }
        _ => panic!("expected a lookup first"),
    };

    assert!(dl.is_ok());
    assert!(dl.ok().unwrap().is_none());
    let key = hashed_dirname(&url, binary_name);
    assert!(!Path::new(&cache.join(&key)).exists());
    assert!(!Path::new(&cache.join(&format!(".{}", key))).exists());
}

#[test]
fn warm_cache_returns_the_entry_without_fetching() {
    let cache = Cache::at("/cache");
    let binaries = names(&["wasm-pack"]);
    let url = "http://localhost:1/wasm-pack.tar.gz";
    let mut session = cache.download(true, "wasm-pack", &binaries, url);
    let dest = match session.start() {
        Action::CheckExists(p) => p,
        _ => panic!("expected a lookup first"),
    };
    assert_eq!(dest, cache.join(&hashed_dirname(url, "wasm-pack")));
    let dl = expect_finish(session.step(Event::Exists(true))).ok().unwrap().unwrap();
    assert_eq!(dl.root(), dest);
    assert!(session.current_phase() == Phase::Done);
    assert!(!session.accepts(&Event::Fetched(Ok(()))));
}

fn drive_to_archive(cache: &Cache, binaries: &[&str], url: &str) -> binary_install_async::DownloadSession {
    let bins = names(binaries);
    let mut s = cache.download(true, "wasm-pack", &bins, url);
    assert!(matches!(s.step(Event::Exists(false)), Action::Fetch(ref u) if u == url));
    match s.step(Event::Fetched(Ok(()))) {
        Action::Stage(p) => {
            assert_eq!(p, cache.join(&format!(".{}", hashed_dirname(url, "wasm-pack"))))
        }
        _ => panic!("expected staging"),
    }
    s
}

#[test]
fn it_downloads_tarball() {
    let cache = Cache::at("/cache");
    let url = "http://127.0.0.1:1234/wasm-pack.tar.gz";
    let mut s = drive_to_archive(&cache, &["wasm-pack"], url);
    assert!(matches!(s.step(Event::Staged(Ok(()))), Action::ReadArchive));
    let staging = cache.join(&format!(".{}", hashed_dirname(url, "wasm-pack")));
    assert!(matches!(s.step(Event::Entry("README.md".to_string())), Action::Skip));
    match s.step(Event::Entry("dist/wasm-pack".to_string())) {
        Action::Unpack(t) => assert_eq!(t, format!("{}/wasm-pack", staging)),
        _ => panic!("expected the binary to be unpacked"),
    }
    assert!(matches!(s.step(Event::Entry("other/wasm-pack".to_string())), Action::Skip));
    match s.step(Event::ArchiveEnd) {
        Action::Commit { from, to } => {
            assert_eq!(from, staging);
            assert_eq!(to, cache.join(&hashed_dirname(url, "wasm-pack")));
        }
        _ => panic!("expected a commit"),
    }
    let dl = expect_finish(s.step(Event::Committed(Ok(()))));
    assert!(dl.is_ok());
    assert!(dl.ok().unwrap().is_some());
}

#[test]
fn entry_keeps_its_extension_when_the_stem_matches() {
    let cache = Cache::at("/cache");
    let url = "http://h/x.tar.gz";
    let mut s = drive_to_archive(&cache, &["tool"], url);
    s.step(Event::Staged(Ok(())));
    match s.step(Event::Entry("pkg/tool.exe".to_string())) {
        Action::Unpack(t) => assert!(t.ends_with("/tool.exe")),
        _ => panic!("expected the binary to be unpacked"),
    }
}

#[test]
fn it_returns_error_when_it_failed_to_download() {
    let url = format!("http://{}:{}", "localhost", 7881);
    let full_url = format!("{}/{}.tar.gz", &url, "wasm-pack");
    let other_url = "http://localhost:7882/other.tar.gz";
    let cache = Cache::at("/cache");
    let bins = names(&["wasm-pack"]);
    let mut s = cache.download(true, "wasm-pack", &bins, &full_url);
    s.step(Event::Exists(false));
    let dl = expect_finish(s.step(Event::Fetched(Err("connection refused".to_string()))));
    assert!(dl.is_err());
    let e = dl.err().unwrap();
    assert_eq!(format!("failed to download from {}", full_url), e.message());
    assert!(!e.message().contains(other_url));
    assert_eq!(e.cause(), "connection refused");
}

#[test]
fn it_returns_error_when_it_failed_to_extract_tarball() {
    let full_url = "http://localhost:7883/wasm-pack.tar.gz";
    let cache = Cache::at("/cache");
    let mut s = drive_to_archive(&cache, &["wasm-pack"], full_url);
    s.step(Event::Staged(Ok(())));
    let dl = expect_finish(s.step(Event::ArchiveFault("invalid gzip header".to_string())));
    assert!(dl.is_err());
    assert_eq!(format!("failed to extract tarball from {}", full_url), dl.err().unwrap().message());
}

#[test]
fn missing_binaries_are_named_exactly() {
    let url = "http://localhost:7885/tools.tar.gz";
    let cache = Cache::at("/cache");
    let mut s = drive_to_archive(&cache, &["a", "b", "c", "a"], url);
    s.step(Event::Staged(Ok(())));
    assert!(matches!(s.step(Event::Entry("b.sh".to_string())), Action::Unpack(_)));
    match expect_finish(s.step(Event::ArchiveEnd)) {
        Err(e) => {
            assert_eq!(e.message(), format!("failed to extract tarball from {}", url));
            match &e {
                CacheError::MissingExecutables { names, .. } => {
                    let mut got = names.clone();
                    got.sort();
                    assert_eq!(got, vec!["a".to_string(), "c".to_string()]);
                }
                _ => panic!("expected missing executables"),
            }
            let cause = e.cause();
            assert!(cause.starts_with("the tarball was missing expected executables: "));
            assert!(cause.contains("a") && cause.contains(", ") && cause.contains("c"));
        }
        Ok(_) => panic!("expected an error"),
    }
}

#[test]
fn staging_and_commit_failures_carry_the_url() {
    let url = "http://localhost:7886/w.tar.gz";
    let cache = Cache::at("/cache");
    let mut s = drive_to_archive(&cache, &["w"], url);
    let e = expect_finish(s.step(Event::Staged(Err("denied".to_string())))).err().unwrap();
    assert!(matches!(e, CacheError::StagingFailed { .. }));
    assert!(e.message().ends_with(url));

    let mut s = drive_to_archive(&cache, &["w"], url);
    s.step(Event::Staged(Ok(())));
    s.step(Event::Entry("w".to_string()));
    assert!(matches!(s.step(Event::ArchiveEnd), Action::Commit { .. }));
    let e = expect_finish(s.step(Event::Committed(Err("exists".to_string())))).err().unwrap();
    assert!(matches!(e, CacheError::CommitFailed { .. }));
    assert_eq!(e.cause(), "exists");
}

#[test]
#[should_panic(expected = "don't know how to extract http://localhost:7884/wasm-pack.bin")]
fn it_panics_if_not_tarball_or_zip() {
    let url = format!("http://{}:{}", "localhost", 7884);
    let full_url = format!("{}/{}.bin", &url, "wasm-pack");
    let cache = Cache::at("/cache");
    let mut s = drive_to_archive(&cache, &["wasm-pack"], &full_url);
    match s.step(Event::Staged(Ok(()))) {
        Action::Abort(m) => panic!("{}", m),
        _ => {}
    }
}

#[test]
fn binary_paths_and_checks() {
    let dl = Download::at("/opt/dl");
    assert_eq!(dl.binary_path("wasm-pack", ""), "/opt/dl/wasm-pack");
    assert_eq!(dl.binary_path("wasm-pack", "exe"), "/opt/dl/wasm-pack.exe");
    assert_eq!(dl.binary("wasm-pack", "", FileKind::Executable).ok().unwrap(), "/opt/dl/wasm-pack");
    let missing = dl.binary("wasm-pack", "", FileKind::Missing).err().unwrap();
    assert_eq!(missing.message(), "/opt/dl/wasm-pack binary does not exist");
    let plain = dl.binary("wasm-pack", "", FileKind::NotExecutable).err().unwrap();
    assert_eq!(plain.message(), "/opt/dl/wasm-pack is not executable");
}

#[test]
fn first_matching_entry_wins_and_others_are_skipped() {
    let cache = Cache::at("/cache");
    let url = "http://localhost:7887/wasm-pack.tar.gz";
    let mut s = drive_to_archive(&cache, &["wasm-pack"], url);
    s.step(Event::Staged(Ok(())));
    let staging = cache.join(&format!(".{}", hashed_dirname(url, "wasm-pack")));
    match s.step(Event::Entry("bin/wasm-pack".to_string())) {
        Action::Unpack(t) => assert_eq!(t, format!("{}/wasm-pack", staging)),
        _ => panic!("expected the first match to be unpacked"),
    }
    assert!(matches!(s.step(Event::Entry("wasm-pack.sh".to_string())), Action::Skip));
    assert!(matches!(s.step(Event::Entry("README".to_string())), Action::Skip));
    assert!(matches!(s.step(Event::ArchiveEnd), Action::Commit { .. }));
}

#[test]
fn repeated_binary_names_count_once() {
    let cache = Cache::at("/cache");
    let url = "http://localhost:7888/a.tar.gz";
    let mut s = drive_to_archive(&cache, &["a", "a"], url);
    s.step(Event::Staged(Ok(())));
    match s.step(Event::Entry("a.exe".to_string())) {
        Action::Unpack(t) => assert!(t.ends_with("/a.exe")),
        _ => panic!("expected a.exe to be unpacked"),
    }
    assert!(matches!(s.step(Event::Entry("b.tar.gz".to_string())), Action::Skip));
    assert!(matches!(s.step(Event::ArchiveEnd), Action::Commit { .. }));
}

#[test]
fn only_the_final_extension_is_stripped() {
    let cache = Cache::at("/cache");
    let url = "http://localhost:7889/b.tar.gz";
    let mut s = drive_to_archive(&cache, &["b"], url);
    s.step(Event::Staged(Ok(())));
    assert!(matches!(s.step(Event::Entry("a.exe".to_string())), Action::Skip));
    assert!(matches!(s.step(Event::Entry("b.tar.gz".to_string())), Action::Skip));
    match expect_finish(s.step(Event::ArchiveEnd)) {
        Err(CacheError::MissingExecutables { names, .. }) => assert_eq!(names, vec!["b".to_string()]),
        _ => panic!("expected b to be reported missing"),
    }
}

#[test]
fn dirname_from_digest_is_little_endian_hex() {
    assert_eq!(dirname_from_digest("wasm-pack", 0x0123456789abcdef), "wasm-pack-efcdab8967452301");
    assert_eq!(dirname_from_digest("x", 0), "x-0000000000000000");
    assert_eq!(dirname_from_digest("", u64::MAX), "-ffffffffffffffff");
}

#[test]
fn success_status_is_any_2xx() {
    assert!(is_success_status(200));
    assert!(is_success_status(299));
    assert!(!is_success_status(199));
    assert!(!is_success_status(300));
    assert!(!is_success_status(404));
}
