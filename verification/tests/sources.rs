use ff::sources::graphql::{Location, PathFragment, QueryError, Response, ResponseError};
use ff::sources::http::{self, Http};
use ff::sources::{checked_url, github, lock};
use ff::sources::{AnyLock, Lock, LockError, LockResult, Source, SourceKind};

#[test]
fn kinds_of_sources() {
    assert_eq!(lock("github:owner/repo"), Ok(SourceKind::GitHub));
    assert_eq!(lock("github:"), Ok(SourceKind::GitHub));
    assert_eq!(lock("http://example.com/a"), Ok(SourceKind::Http));
    assert_eq!(lock("https://example.com/a"), Ok(SourceKind::Http));
    assert_eq!(lock("gitlab:owner/repo"), Err(LockError::UnknownScheme));
    assert_eq!(lock("GitHub:owner/repo"), Err(LockError::UnknownScheme));
    assert_eq!(lock(":http"), Err(LockError::UnknownScheme));
    assert_eq!(lock("owner/repo"), Err(LockError::InvalidSpec));
    assert_eq!(lock(""), Err(LockError::InvalidSpec));
}

#[test]
fn schemes_of_sources() {
    assert_eq!(github::GitHub::schemes(), vec!["github"]);
    assert_eq!(Http::schemes(), vec!["http", "https"]);
}

#[test]
fn http_locks() {
    let result = Http::lock("https://example.com".to_string(), http::Spec, None);
    assert!(!result.is_changed());
    let again = Http::lock("x".to_string(), http::Spec, Some(&http::Lock));
    assert!(matches!(again.into_dyn(), LockResult::Unchanged(AnyLock::Http(_))));
    assert!(!http::Lock.is_immutable());
    assert_eq!(http::Lock.version(), None);
    assert_eq!(http::Lock.last_modified(), None);
    let url = http::Lock.url("HTTPS://Example.com/a b");
    assert_eq!(url.href, "https://example.com/a%20b");
    assert_eq!(url.path_segments, Some(vec!["a%20b".to_string()]));
    assert_eq!(checked_url(&http::Lock, "no address"), None);
}

#[test]
fn which_content_never_changes() {
    let locked = github::Lock {
        rev: "abc".to_string(),
        tag: Some("v1".to_string()),
    };
    assert!(AnyLock::GitHub(locked.clone()).is_immutable());
    assert!(!AnyLock::Http(http::Lock).is_immutable());
    assert_eq!(AnyLock::GitHub(locked.clone()).version(), Some("v1".to_string()));
    assert_eq!(AnyLock::GitHub(locked.clone()).into_any(), locked.into_any());
}

#[test]
fn lock_results() {
    let unchanged = LockResult::Unchanged(1);
    assert_eq!(*unchanged.current(), 1);
    assert_eq!(unchanged.previous(), None);
    assert!(!unchanged.is_changed());
    assert_eq!(unchanged.clone().into_current(), 1);
    assert!(matches!(
        unchanged.clone().map(|_| None::<i64>, |n| n * 10),
        LockResult::Unchanged(10)
    ));
    assert!(matches!(
        unchanged.into_changed(),
        LockResult::Changed(Some(1), 1)
    ));

    let changed = LockResult::Changed(Some(1), 2);
    assert_eq!(*changed.current(), 2);
    assert_eq!(changed.previous(), Some(&1));
    assert!(changed.is_changed());
    assert_eq!(changed.clone().into_current(), 2);
    assert!(matches!(
        changed.clone().map(|n| Some(n + 5), |n| n * 10),
        LockResult::Changed(Some(6), 20)
    ));
    assert!(matches!(
        changed.clone().map(|_| None, |n| n * 10),
        LockResult::Changed(None, 20)
    ));
    assert!(matches!(
        changed.into_changed(),
        LockResult::Changed(Some(1), 2)
    ));

    let new: LockResult<i32> = LockResult::Changed(None, 2);
    assert_eq!(new.previous(), None);
    assert!(matches!(
        new.into_changed().into_changed(),
        LockResult::Changed(None, 2)
    ));
}

#[test]
fn any_lock_of_each_result() {
    let of = |rev: &str| github::Lock {
        rev: rev.to_string(),
        tag: None,
    };
    match LockResult::Changed(Some(of("a")), of("b")).into_dyn() {
        LockResult::Changed(Some(old), new) => {
            assert_eq!(old, AnyLock::GitHub(of("a")));
            assert_eq!(new, AnyLock::GitHub(of("b")));
        }
        other => panic!("{other:?}"),
    }
    assert!(matches!(
        LockResult::Changed(None, of("b")).into_dyn(),
        LockResult::Changed(None, AnyLock::GitHub(_))
    ));
}

fn query_error(message: &str) -> QueryError {
    QueryError {
        message: message.to_string(),
        locations: None,
        path: None,
    }
}

#[test]
fn answers() {
    let good = Response {
        data: Some(3),
        errors: None,
    };
    assert_eq!(good.anyhow(), Ok(3));
    let empty: Response<i32> = Response {
        data: None,
        errors: None,
    };
    assert_eq!(empty.anyhow(), Err(ResponseError::NoData));
    let no_errors = Response {
        data: Some(3),
        errors: Some(vec![]),
    };
    assert_eq!(no_errors.anyhow(), Err(ResponseError::Errors(String::new())));
}

#[test]
fn errors_in_answers() {
    let located = QueryError {
        message: "no such field".to_string(),
        locations: Some(vec![
            Location { line: 2, column: 5 },
            Location { line: 9, column: 9 },
        ]),
        path: Some(vec![
            PathFragment::Key("repository".to_string()),
            PathFragment::Index(4),
        ]),
    };
    let response: Response<i32> = Response {
        data: Some(3),
        errors: Some(vec![query_error("bad query"), located]),
    };
    assert_eq!(
        response.anyhow(),
        Err(ResponseError::Errors(
            "<query>:0:0: bad query\nrepository/4:2:5: no such field".to_string()
        ))
    );
}

#[test]
fn paths_of_errors_in_answers() {
    let shown = |path: Vec<PathFragment>, locations: Vec<Location>| {
        let error = QueryError {
            message: "m".to_string(),
            locations: Some(locations),
            path: Some(path),
        };
        let response: Response<i32> = Response {
            data: None,
            errors: Some(vec![error]),
        };
        match response.anyhow() {
            Err(ResponseError::Errors(text)) => text,
            other => panic!("{other:?}"),
        }
    };
    let key = |key: &str| PathFragment::Key(key.to_string());
    assert_eq!(shown(vec![], vec![]), ":0:0: m");
    assert_eq!(shown(vec![key("a/"), key("b//")], vec![]), "a//b:0:0: m");
    assert_eq!(shown(vec![key("/")], vec![]), ":0:0: m");
    assert_eq!(
        shown(
            vec![PathFragment::Index(-120), PathFragment::Index(0)],
            vec![Location {
                line: i32::MIN,
                column: 1005
            }]
        ),
        "-120/0:-2147483648:1005: m"
    );
}

#[test]
fn messages_of_lock_errors() {
    let target = || github::data::RefTarget {
        oid: "abc".to_string(),
        on: github::data::TargetKind::Other,
    };
    let pattern = github::pattern::PatternError {
        text: "x".to_string(),
    };
    let all = vec![
        (LockError::InvalidSpec, "invalid spec"),
        (LockError::UnknownScheme, "unknown scheme"),
        (LockError::InvalidRevisionSpec, "invalid rev spec"),
        (LockError::InvalidLock, "invalid lock"),
        (LockError::Response(ResponseError::NoData), "no data or errors"),
        (LockError::Response(ResponseError::Errors("a\nb".to_string())), "a\nb"),
        (LockError::NoRepository, "no repository"),
        (LockError::NoTarget, "no target"),
        (LockError::NotATag(target()), "not a tag "),
        (LockError::InvalidPattern(pattern), "invalid glob pattern"),
        (LockError::NoRefs, "no refs"),
        (LockError::NoMatchingTag, "no matching tag found"),
        (LockError::BranchNotFound, "branch not found"),
        (LockError::NoTargetCommit(target()), "no target commit: "),
        (LockError::NoDefaultBranch, "no default branch"),
        (LockError::NoRelease, "no release found"),
        (LockError::ReleaseWithoutTag, "release is not a tag??"),
        (LockError::TagWithoutCommit, "tag has no commit??"),
    ];
    for (error, message) in all {
        assert_eq!(error.message(), message);
    }
}
