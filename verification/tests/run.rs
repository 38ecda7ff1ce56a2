use ff::lock_file::{default_unpack, show_info, shown_time, FullLock, Lock, Spec};
use ff::report::{show_change, summarize, Change};
use ff::run::{checked_run_one, run_one, Next, PendingRequest, Reply, NOT_MODIFIED};
use ff::sources::{github, http, AnyLock, LockResult};
use ff::timestamp::{Timestamp, MAX_SECONDS, MIN_SECONDS};
use ssri2::Integrity;

const MODIFIED: &str = "Wed, 18 Feb 2015 23:16:09 GMT";

fn hash(of: &str) -> Integrity {
    Integrity::digest(of, ssri2::Algorithm::Sha256)
}

fn spec(spec: &str, unpack: bool) -> Spec {
    Spec {
        spec: spec.to_string(),
        unpack,
    }
}

fn old_lock(etag: Option<&str>) -> Lock {
    Lock {
        hash: hash("old"),
        etag: etag.map(str::to_string),
        unpack: true,
        last_modified: None,
    }
}

fn github_lock(rev: &str) -> AnyLock {
    AnyLock::GitHub(github::Lock {
        rev: rev.to_string(),
        tag: Some("v1".to_string()),
    })
}

fn done(next: Next) -> LockResult<FullLock> {
    match next {
        Next::Done(result) => result,
        other => panic!("{other:?}"),
    }
}

fn fetched(next: Next) -> LockResult<FullLock> {
    match next {
        Next::Prefetch(fetch) => fetch.prefetched(hash("new")),
        other => panic!("{other:?}"),
    }
}

fn request(old: Option<Lock>, unpack: bool) -> PendingRequest {
    let spec = spec("https://example.com/file.tar.gz", unpack);
    match run_one(&spec, old, LockResult::Unchanged(AnyLock::Http(http::Lock))) {
        Next::Request(request) => request,
        other => panic!("{other:?}"),
    }
}

fn reply(status: u16, etag: Option<&str>) -> Reply {
    Reply {
        status,
        etag: etag.map(str::to_string),
        last_modified: Some(MODIFIED.to_string()),
    }
}

#[test]
fn unpacking_is_the_default() {
    assert!(default_unpack());
}

#[test]
fn a_revision_that_stands_is_not_fetched() {
    let spec = spec("github:owner/repo", true);
    let result = done(run_one(
        &spec,
        Some(old_lock(None)),
        LockResult::Unchanged(github_lock("abc")),
    ));
    assert!(!result.is_changed());
    let lock = result.into_current();
    assert_eq!(lock.lock.hash, hash("old"));
    assert_ne!(lock.lock.hash, hash("new"));
    assert_eq!(lock.inner, github_lock("abc"));
    assert!(lock.lock.unpack);
}

#[test]
fn a_tag_is_dropped_from_the_lock_of_a_revision() {
    let spec = spec("github:owner/repo", true);
    let mut old = old_lock(Some("\"a\""));
    old.last_modified = Timestamp::new(0, 0, 0);
    let result = done(run_one(
        &spec,
        Some(old),
        LockResult::Unchanged(github_lock("abc")),
    ));
    assert_eq!(result.current().lock.etag, None);
    assert_eq!(result.current().lock.last_modified, None);
}

#[test]
fn a_new_revision_is_fetched() {
    let spec = spec("github:owner/repo", true);
    let next = run_one(
        &spec,
        Some(old_lock(None)),
        LockResult::Changed(Some(github_lock("abc")), github_lock("def")),
    );
    match &next {
        Next::Prefetch(fetch) => assert_eq!(
            fetch.job.url.href,
            "https://github.com/owner/repo/archive/def.tar.gz"
        ),
        other => panic!("{other:?}"),
    }
    match fetched(next) {
        LockResult::Changed(Some(old), new) => {
            assert_eq!(old.lock.hash, hash("old"));
            assert_eq!(old.inner, github_lock("abc"));
            assert_eq!(new.lock.hash, hash("new"));
            assert_eq!(new.inner, github_lock("def"));
        }
        other => panic!("{other:?}"),
    }
}

#[test]
fn a_first_lock_is_fetched() {
    let spec = spec("github:owner/repo", false);
    let result = fetched(run_one(
        &spec,
        None,
        LockResult::Changed(None, github_lock("abc")),
    ));
    assert!(matches!(&result, LockResult::Changed(None, _)));
    assert!(!result.current().lock.unpack);
}

#[test]
fn an_old_revision_without_an_old_lock_gets_lost() {
    let spec = spec("github:owner/repo", true);
    let result = fetched(run_one(
        &spec,
        None,
        LockResult::Changed(Some(github_lock("abc")), github_lock("def")),
    ));
    assert!(matches!(result, LockResult::Changed(None, _)));
}

#[test]
fn unpacking_otherwise_fetches_again() {
    let spec = spec("github:owner/repo", false);
    let result = fetched(run_one(
        &spec,
        Some(old_lock(None)),
        LockResult::Unchanged(github_lock("abc")),
    ));
    assert!(!result.is_changed());
    assert_eq!(result.current().lock.hash, hash("new"));
    assert!(!result.current().lock.unpack);
}

#[test]
fn a_second_run_keeps_the_lock() {
    let spec = spec("github:owner/repo", true);
    let first = fetched(run_one(
        &spec,
        None,
        LockResult::Changed(None, github_lock("abc")),
    ))
    .into_current();
    let second = done(run_one(
        &spec,
        Some(first.lock.clone()),
        LockResult::Unchanged(first.inner.clone()),
    ));
    assert!(!second.is_changed());
    assert_eq!(second.current().lock.hash, first.lock.hash);
    assert_eq!(second.current().inner, first.inner);
}

#[test]
fn specs_without_an_address() {
    let nowhere = spec("github:owner", true);
    let result = LockResult::Unchanged(github_lock("abc"));
    assert!(checked_run_one(&nowhere, None, result).is_none());
    let no_host = spec("http://", true);
    let result = LockResult::Unchanged(AnyLock::Http(http::Lock));
    assert!(checked_run_one(&no_host, None, result).is_none());
    let somewhere = spec("http://example.com", true);
    let result = LockResult::Unchanged(AnyLock::Http(http::Lock));
    assert!(matches!(
        checked_run_one(&somewhere, None, result),
        Some(Next::Request(_))
    ));
}

#[test]
fn the_tag_that_is_sent() {
    assert_eq!(request(None, true).if_none_match(), None);
    assert_eq!(request(Some(old_lock(None)), true).if_none_match(), None);
    assert_eq!(
        request(Some(old_lock(Some("a"))), true).if_none_match(),
        Some(&"a".to_string())
    );
}

#[test]
fn the_same_tag_keeps_the_hash() {
    let result = done(request(Some(old_lock(Some("a"))), true).reply(reply(200, Some("a"))));
    assert!(!result.is_changed());
    let lock = result.into_current().lock;
    assert_eq!(lock.hash, hash("old"));
    assert_eq!(lock.etag, Some("a".to_string()));
    assert_eq!(lock.last_modified, Timestamp::new(1424301369, 0, 0));
}

#[test]
fn not_modified_keeps_the_hash() {
    for etag in [None, Some("b")] {
        let next = request(Some(old_lock(Some("a"))), true).reply(reply(NOT_MODIFIED, etag));
        let lock = done(next).into_current().lock;
        assert_eq!(lock.hash, hash("old"));
        assert_eq!(lock.etag, Some("a".to_string()));
    }
    let untagged = request(Some(old_lock(None)), true).reply(reply(NOT_MODIFIED, Some("b")));
    assert_eq!(fetched(untagged).into_current().lock.etag, None);
}

#[test]
fn another_tag_is_a_change() {
    let result = fetched(request(Some(old_lock(Some("a"))), true).reply(reply(200, Some("b"))));
    match result {
        LockResult::Changed(Some(old), new) => {
            assert_eq!(old.lock.etag, Some("a".to_string()));
            assert_eq!(old.lock.hash, hash("old"));
            assert_eq!(new.lock.etag, Some("b".to_string()));
            assert_eq!(new.lock.hash, hash("new"));
            assert_eq!(new.inner, AnyLock::Http(http::Lock));
        }
        other => panic!("{other:?}"),
    }
}

#[test]
fn content_without_a_tag_is_always_fetched() {
    for old in [None, Some("a")] {
        let result = fetched(request(Some(old_lock(old)), true).reply(reply(200, None)));
        assert!(result.is_changed());
        assert_eq!(result.into_current().lock.etag, None);
    }
    let first = fetched(request(None, true).reply(reply(200, Some("a"))));
    assert!(matches!(first, LockResult::Changed(None, _)));
}

#[test]
fn the_same_tag_unpacked_otherwise_is_fetched() {
    let result = fetched(request(Some(old_lock(Some("a"))), false).reply(reply(200, Some("a"))));
    assert!(result.is_changed());
    assert!(!result.into_current().lock.unpack);
}

#[test]
fn a_second_run_keeps_the_hash() {
    let first = fetched(request(None, true).reply(reply(200, Some("a")))).into_current();
    let second = done(request(Some(first.lock.clone()), true).reply(reply(200, Some("a"))));
    assert!(!second.is_changed());
    assert_eq!(second.into_current().lock.hash, first.lock.hash);
}

#[test]
fn times_play_no_part() {
    let mut old = old_lock(Some("a"));
    old.last_modified = Timestamp::new(5, 0, 0);
    let next = request(Some(old), true).reply(reply(200, Some("a")));
    assert_eq!(done(next).into_current().lock.hash, hash("old"));
    let unreadable = Reply {
        status: 200,
        etag: Some("a".to_string()),
        last_modified: Some("yesterday".to_string()),
    };
    let lock = done(request(Some(old_lock(Some("a"))), true).reply(unreadable)).into_current();
    assert_eq!(lock.lock.last_modified, None);
    assert_eq!(lock.lock.hash, hash("old"));
    let given = request(Some(old_lock(Some("a"))), true).replied(
        200,
        Some("a".to_string()),
        Timestamp::new(7, 0, 0),
    );
    assert_eq!(done(given).into_current().lock.last_modified, Timestamp::new(7, 0, 0));
}

#[test]
fn points_in_time() {
    let time = Timestamp::from_rfc2822(MODIFIED).unwrap();
    assert_eq!(
        (time.seconds(), time.nanoseconds(), time.offset()),
        (1424301369, 0, 0)
    );
    assert_eq!(time.show(), "2015-02-18 23:16:09 +00:00");
    let east = Timestamp::from_rfc2822("Tue, 1 Jul 2003 10:52:37 +0200").unwrap();
    assert_eq!(east, Timestamp::new(1057049557, 0, 7200).unwrap());
    assert_eq!(east.show(), "2003-07-01 10:52:37 +02:00");
    assert_eq!(Timestamp::from_rfc2822("2015-02-18"), None);
    assert_ne!(Timestamp::new(0, 0, 0), Timestamp::new(0, 0, 1));
}

#[test]
fn limits_of_time() {
    assert_eq!(Timestamp::new(MIN_SECONDS - 1, 0, 0), None);
    assert_eq!(Timestamp::new(MAX_SECONDS + 1, 0, 0), None);
    assert_eq!(Timestamp::new(0, 2_000_000_000, 0), None);
    assert_eq!(Timestamp::new(0, 1_000_000_000, 0), None);
    assert_eq!(Timestamp::new(0, 0, 86_400), None);
    assert_eq!(Timestamp::new(0, 0, -86_400), None);
    let leap = Timestamp::new(59, 1_500_000_000, 0).unwrap();
    assert_eq!(leap.show(), "1970-01-01 00:00:60.500 +00:00");
    let before = Timestamp::new(-1, 1_000_000_000, 0).unwrap();
    assert_eq!(before.show(), "1969-12-31 23:59:60 +00:00");
    for offset in [-86_399, 0, 86_399] {
        assert!(!Timestamp::new(MIN_SECONDS, 0, offset).unwrap().show().is_empty());
        let last = Timestamp::new(MAX_SECONDS, 1_999_999_999, offset).unwrap();
        assert!(!last.show().is_empty());
    }
    let first = Timestamp::new(MIN_SECONDS, 0, 0).unwrap();
    assert_eq!(first.show(), "-262143-01-01 00:00:00 +00:00");
    let last = Timestamp::new(MAX_SECONDS, 999_999_999, 0).unwrap();
    assert_eq!(last.show(), "+262142-12-31 23:59:59.999999999 +00:00");
}

#[test]
fn revisions_in_a_few_words() {
    let text = |s: &str| Some(s.to_string());
    assert_eq!(show_info(text("v1"), text("now")), "v1 (now)");
    assert_eq!(show_info(text("v1"), None), "v1");
    assert_eq!(show_info(None, text("now")), "(now)");
    assert_eq!(show_info(None, None), "?");
    let mut full = FullLock {
        lock: old_lock(None),
        inner: AnyLock::Http(http::Lock),
    };
    assert_eq!(full.info(), "?");
    full.lock.last_modified = Timestamp::new(0, 0, 0);
    assert_eq!(full.info(), "(1970-01-01 00:00:00 +00:00)");
    full.inner = github_lock("abc");
    assert_eq!(full.info(), "v1 (1970-01-01 00:00:00 +00:00)");
}

#[test]
fn a_source_knows_its_time_best() {
    let own = Timestamp::new(1, 0, 0);
    let server = Timestamp::new(2, 0, 0);
    assert_eq!(shown_time(own, server), own);
    assert_eq!(shown_time(own, None), own);
    assert_eq!(shown_time(None, server), server);
    assert_eq!(shown_time(None, None), None);
}

#[test]
fn reports() {
    let full = |inner| FullLock {
        lock: old_lock(None),
        inner,
    };
    let results: Vec<(String, Result<LockResult<FullLock>, &str>)> = vec![
        (
            "a".to_string(),
            Ok(LockResult::Unchanged(full(github_lock("abc")))),
        ),
        ("b".to_string(), Err("offline")),
        (
            "c".to_string(),
            Ok(LockResult::Changed(
                Some(full(AnyLock::Http(http::Lock))),
                full(github_lock("def")),
            )),
        ),
        (
            "d".to_string(),
            Ok(LockResult::Changed(None, full(github_lock("ghi")))),
        ),
    ];
    let summary = summarize(&results);
    assert_eq!(summary.unchanged, vec!["a"]);
    assert_eq!(summary.changed.len(), 2);
    assert_eq!(summary.changed[0].name, "c");
    let names: Vec<&str> = summary.locks.iter().map(|(name, _)| name.as_str()).collect();
    assert_eq!(names, vec!["a", "c", "d"]);
    assert_eq!(summary.locks[1].1.inner, github_lock("def"));
    assert_eq!(
        summary.report(),
        vec![
            "Lock file updated",
            "Unchanged:",
            "  a",
            "Changed:",
            "  c [? -> v1]",
            "  d [∅ -> v1]",
        ]
    );
}

#[test]
fn reports_without_news() {
    let nothing: Vec<(String, Result<LockResult<FullLock>, &str>)> =
        vec![("b".to_string(), Err("offline"))];
    let summary = summarize(&nothing);
    assert!(summary.locks.is_empty());
    assert_eq!(summary.report(), vec!["Lock file updated"]);
}

#[test]
fn lines_of_changes() {
    assert_eq!(show_change("a", Some("x".to_string()), "y"), "  a [x -> y]");
    assert_eq!(show_change("a", None, "y"), "  a [∅ -> y]");
    let change = Change {
        name: "a".to_string(),
        old: None,
        current: FullLock {
            lock: old_lock(None),
            inner: AnyLock::Http(http::Lock),
        },
    };
    assert_eq!(change.show(), "  a [∅ -> ?]");
}
