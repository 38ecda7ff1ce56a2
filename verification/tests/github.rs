use ff::sources::github::config::{AccessTokens, NixConfig};
use ff::sources::github::data::{
    Commit, DefaultBranchData, DefaultBranchRef, DefaultBranchRepository, ListReleasesData,
    ListReleasesRepository, ListTagsData, ListTagsRepository, PageInfo, Ref, RefInfoData,
    RefInfoRepository, RefTarget, Refs, Release, ReleaseTag, Releases, TagNode, TargetKind,
};
use ff::sources::github::pattern::PatternError;
use ff::sources::github::steps::{
    BranchLookup, DefaultBranchLookup, PageVariables, RefVariables, ReleaseSearch,
    RepositoryVariables, Session, Step, TagLookup, TagSearch,
};
use ff::sources::github::{revision_spec, GitHub, Lock, Spec};
use ff::sources::graphql::{QueryError, Response, ResponseError};
use ff::sources::{checked_url, Lock as _, LockError, LockResult, Source};

fn locked(rev: &str, tag: Option<&str>) -> Lock {
    Lock {
        rev: rev.to_string(),
        tag: tag.map(str::to_string),
    }
}

fn session(lock: Option<Lock>) -> Session {
    Session {
        owner: "owner".to_string(),
        repo: "repo".to_string(),
        lock,
    }
}

fn good<T>(data: T) -> Response<T> {
    Response {
        data: Some(data),
        errors: None,
    }
}

fn failed<T>() -> Response<T> {
    Response {
        data: None,
        errors: Some(vec![QueryError {
            message: "rate limited".to_string(),
            locations: None,
            path: None,
        }]),
    }
}

fn failure() -> LockError {
    LockError::Response(ResponseError::Errors(
        "<query>:0:0: rate limited".to_string(),
    ))
}

fn commit(oid: &str) -> RefTarget {
    RefTarget {
        oid: oid.to_string(),
        on: TargetKind::Commit,
    }
}

fn annotated(oid: &str, target_oid: &str) -> RefTarget {
    RefTarget {
        oid: oid.to_string(),
        on: TargetKind::Tag {
            target_oid: target_oid.to_string(),
        },
    }
}

fn tree(oid: &str) -> RefTarget {
    RefTarget {
        oid: oid.to_string(),
        on: TargetKind::Other,
    }
}

fn ref_info(ref_: Option<Ref>) -> RefInfoData {
    RefInfoData {
        repository: Some(RefInfoRepository { ref_ }),
    }
}

fn on(target: RefTarget) -> RefInfoData {
    ref_info(Some(Ref {
        target: Some(target),
    }))
}

fn done(step: Result<Step, LockError>) -> LockResult<Lock> {
    match step {
        Ok(Step::Done(result)) => result,
        other => panic!("{other:?}"),
    }
}

fn error(step: Result<Step, LockError>) -> LockError {
    step.unwrap_err()
}

fn page_info(next: bool, cursor: &str) -> PageInfo {
    PageInfo {
        has_next_page: next,
        end_cursor: Some(cursor.to_string()),
    }
}

fn tag(name: &str, target: Option<RefTarget>) -> Option<TagNode> {
    Some(TagNode {
        name: name.to_string(),
        target,
    })
}

fn tags(next: bool, cursor: &str, nodes: Option<Vec<Option<TagNode>>>) -> ListTagsData {
    ListTagsData {
        repository: Some(ListTagsRepository {
            refs: Some(Refs {
                page_info: page_info(next, cursor),
                nodes,
            }),
        }),
    }
}

fn tag_search(pattern: &str) -> TagSearch {
    TagSearch {
        session: session(None),
        pattern: pattern.to_string(),
        cursor: None,
    }
}

fn release(pre: bool, tag: Option<&str>, oid: Option<&str>) -> Option<Release> {
    Some(Release {
        is_prerelease: pre,
        tag: tag.map(|name| ReleaseTag {
            name: name.to_string(),
        }),
        tag_commit: oid.map(|oid| Commit {
            oid: oid.to_string(),
        }),
    })
}

fn releases(next: bool, cursor: &str, nodes: Option<Vec<Option<Release>>>) -> ListReleasesData {
    ListReleasesData {
        repository: Some(ListReleasesRepository {
            releases: Releases {
                page_info: page_info(next, cursor),
                nodes,
            },
        }),
    }
}

fn release_search(pre_release: bool) -> ReleaseSearch {
    ReleaseSearch {
        session: session(None),
        pre_release,
        cursor: None,
    }
}

#[test]
fn default_spec() {
    assert_eq!(Spec::default(), Spec::Release { pre_release: false });
}

#[test]
fn forms_of_specs() {
    let text = |s: &str| Some(s.to_string());
    let rev = Spec::Rev {
        rev: "r".to_string(),
    };
    let tag = Spec::Tag {
        tag: "t".to_string(),
    };
    let branch = |branch| Spec::Branch { branch };
    assert_eq!(revision_spec(text("r"), text("t"), text("b"), Some(true)), rev);
    assert_eq!(revision_spec(None, text("t"), text("b"), Some(true)), tag);
    assert_eq!(revision_spec(None, None, text("b"), Some(true)), branch(text("b")));
    assert_eq!(revision_spec(None, None, text("b"), None), branch(text("b")));
    for pre_release in [false, true] {
        assert_eq!(
            revision_spec(None, None, None, Some(pre_release)),
            Spec::Release { pre_release }
        );
    }
    assert_eq!(revision_spec(None, None, None, None), branch(None));
}

#[test]
fn specs_that_name_no_repository() {
    let checked = |spec: &str| GitHub::checked_lock(spec.to_string(), Spec::default(), None);
    assert!(checked("github:owner").is_none());
    assert!(checked("gitlab:owner/repo").is_none());
    match checked("github:owner/repo") {
        Some(Step::ReleaseSearch(search)) => {
            assert_eq!(search.session.owner, "owner");
            assert_eq!(search.session.repo, "repo");
        }
        other => panic!("{other:?}"),
    }
    let old = locked("abc", None);
    let spec = Spec::Rev {
        rev: "abc".to_string(),
    };
    let step = GitHub::checked_lock("github:owner/repo".to_string(), spec, Some(&old));
    assert!(!done(Ok(step.unwrap())).is_changed());
}

#[test]
fn archive_addresses() {
    let lock = locked("abc", None);
    assert_eq!(
        lock.url("github:owner/repo").href,
        "https://github.com/owner/repo/archive/abc.tar.gz"
    );
    assert_eq!(
        lock.url("github:owner/repo").path_segments.unwrap().pop().unwrap(),
        "abc.tar.gz"
    );
    assert_eq!(
        lock.url_source("github:a/b/c").unwrap(),
        "https://github.com/a/b/c/archive/abc.tar.gz"
    );
    assert_eq!(lock.url_source("github:owner"), None);
    assert_eq!(lock.url_source("https://owner/repo"), None);
    assert_eq!(checked_url(&lock, "github:owner"), None);
    assert!(lock.is_immutable());
    assert_eq!(lock.version(), None);
    assert_eq!(locked("abc", Some("v1")).version(), Some("v1".to_string()));
    assert_eq!(lock.last_modified(), None);
}

#[test]
fn changes_of_revisions() {
    let new = session(None).resolve(locked("abc", Some("v1")));
    assert!(matches!(&new, LockResult::Changed(None, found) if *found == locked("abc", Some("v1"))));
    let other = session(Some(locked("abc", None))).resolve(locked("def", None));
    match other {
        LockResult::Changed(Some(old), new) => {
            assert_eq!(old, locked("abc", None));
            assert_eq!(new, locked("def", None));
        }
        other => panic!("{other:?}"),
    }
    let renamed = session(Some(new.into_current())).resolve(locked("abc", Some("v2")));
    assert!(!renamed.is_changed());
    assert_eq!(renamed.into_current(), locked("abc", Some("v2")));
}

#[test]
fn first_steps() {
    let start = |spec| GitHub::lock("github:owner/repo/x".to_string(), spec, None);
    let rev = start(Spec::Rev {
        rev: "abc".to_string(),
    });
    assert_eq!(done(Ok(rev)).into_current(), locked("abc", None));
    match start(Spec::Tag {
        tag: "v*".to_string(),
    }) {
        Step::TagLookup(lookup) => assert_eq!(
            lookup.variables(),
            RefVariables {
                owner: "owner".to_string(),
                repo: "repo/x".to_string(),
                q_tag: "refs/tags/v*".to_string(),
            }
        ),
        other => panic!("{other:?}"),
    }
    match start(Spec::Branch {
        branch: Some("main".to_string()),
    }) {
        Step::BranchLookup(lookup) => {
            assert_eq!(lookup.variables().q_tag, "refs/heads/main");
        }
        other => panic!("{other:?}"),
    }
    match start(Spec::Branch { branch: None }) {
        Step::DefaultBranchLookup(lookup) => assert_eq!(
            lookup.variables(),
            RepositoryVariables {
                owner: "owner".to_string(),
                repo: "repo/x".to_string(),
            }
        ),
        other => panic!("{other:?}"),
    }
    match start(Spec::Release { pre_release: true }) {
        Step::ReleaseSearch(search) => {
            assert!(search.pre_release);
            assert_eq!(search.variables().after, None);
        }
        other => panic!("{other:?}"),
    }
}

#[test]
fn a_locked_revision_is_carried_along() {
    let old = locked("abc", None);
    let spec = Spec::Rev {
        rev: "abc".to_string(),
    };
    let step = GitHub::lock("github:owner/repo".to_string(), spec, Some(&old));
    assert!(!done(Ok(step)).is_changed());
    let spec = Spec::Rev {
        rev: "def".to_string(),
    };
    let step = GitHub::lock("github:owner/repo".to_string(), spec, Some(&old));
    assert_eq!(done(Ok(step)).previous(), Some(&old));
}

#[test]
fn commits_of_targets() {
    assert_eq!(commit("abc").oid().unwrap(), "abc");
    assert_eq!(annotated("abc", "def").oid().unwrap(), "def");
    assert_eq!(tree("abc").oid(), None);
}

fn lookup(tag: &str) -> TagLookup {
    TagLookup {
        session: session(None),
        tag: tag.to_string(),
    }
}

#[test]
fn tags_by_name() {
    let found = done(lookup("v1").answer(good(on(annotated("abc", "def")))));
    assert_eq!(found.into_current(), locked("def", Some("v1")));
    let no_repository = RefInfoData { repository: None };
    assert_eq!(
        error(lookup("v1").answer(good(no_repository))),
        LockError::NoRepository
    );
    let no_target = ref_info(Some(Ref { target: None }));
    assert_eq!(error(lookup("v1").answer(good(no_target))), LockError::NoTarget);
    assert_eq!(
        error(lookup("v1").answer(good(on(tree("abc"))))),
        LockError::NotATag(tree("abc"))
    );
    assert_eq!(error(lookup("v1").answer(failed())), failure());
}

#[test]
fn a_name_goes_before_a_pattern() {
    let found = done(lookup("***").answer(good(on(commit("abc")))));
    assert_eq!(found.into_current(), locked("abc", Some("***")));
    let bad = PatternError {
        text: "x".to_string(),
    };
    let same = done(lookup("***").resolve(on(commit("abc")), Err(bad)));
    assert_eq!(same.into_current(), locked("abc", Some("***")));
}

#[test]
fn names_as_patterns() {
    match lookup("v1.*").answer(good(ref_info(None))) {
        Ok(Step::TagSearch(search)) => {
            assert_eq!(search.pattern, "v1.*");
            assert_eq!(
                search.variables(),
                PageVariables {
                    owner: "owner".to_string(),
                    repo: "repo".to_string(),
                    after: None,
                }
            );
        }
        other => panic!("{other:?}"),
    }
    assert_eq!(
        error(lookup("v***").answer(good(ref_info(None)))),
        LockError::InvalidPattern(PatternError {
            text: "Pattern syntax error near position 3: \
                   wildcards are either regular `*` or recursive `**`"
                .to_string(),
        })
    );
    assert_eq!(
        error(lookup("v[1").answer(good(ref_info(None)))),
        LockError::InvalidPattern(PatternError {
            text: "Pattern syntax error near position 1: invalid range pattern".to_string(),
        })
    );
}

#[test]
fn tags_by_pattern() {
    let page = tags(
        true,
        "c",
        Some(vec![
            None,
            tag("w1.1", Some(commit("a"))),
            tag("v1.2", None),
            tag("v1.3", Some(tree("b"))),
            tag("v1.4", Some(annotated("c", "d"))),
            tag("v1.5", Some(commit("e"))),
        ]),
    );
    let found = done(tag_search("v1.*").answer(good(page)));
    assert_eq!(found.into_current(), locked("d", Some("v1.4")));
    let literal = tags(
        true,
        "c",
        Some(vec![
            tag("v1.*x", Some(commit("a"))),
            tag("va", Some(commit("b"))),
        ]),
    );
    let found = done(tag_search("v[a-c]").answer(good(literal)));
    assert_eq!(found.into_current(), locked("b", Some("va")));
}

#[test]
fn pages_of_tags() {
    let none = tags(true, "c1", Some(vec![tag("w", Some(commit("a")))]));
    let search = match tag_search("v*").answer(good(none)) {
        Ok(Step::TagSearch(search)) => search,
        other => panic!("{other:?}"),
    };
    assert_eq!(search.variables().after, Some("c1".to_string()));
    let search = match search.answer(good(tags(true, "c2", None))) {
        Ok(Step::TagSearch(search)) => search,
        other => panic!("{other:?}"),
    };
    assert_eq!(search.variables().after, Some("c2".to_string()));
    let some = tags(true, "c3", Some(vec![tag("v1", Some(commit("b")))]));
    assert_eq!(
        done(search.answer(good(some))).into_current(),
        locked("b", Some("v1"))
    );
}

#[test]
fn the_last_page_of_tags_is_searched() {
    let last = tags(false, "c", Some(vec![tag("v1.0", Some(commit("c1")))]));
    let result = done(tag_search("v1.*").answer(good(last)));
    assert!(result.is_changed());
    assert_eq!(result.into_current(), locked("c1", Some("v1.0")));
}

#[test]
fn no_tag_on_any_page() {
    let fails = |nodes| error(tag_search("v1.*").answer(good(tags(false, "c", nodes))));
    assert_eq!(
        fails(Some(vec![
            None,
            tag("w1.0", Some(commit("a"))),
            tag("v1.0", Some(tree("b"))),
            tag("v1.1", None),
        ])),
        LockError::NoMatchingTag
    );
    assert_eq!(fails(Some(vec![])), LockError::NoMatchingTag);
    assert_eq!(fails(None), LockError::NoMatchingTag);
}

#[test]
fn searches_for_tags_that_fail() {
    let no_repository = ListTagsData { repository: None };
    assert_eq!(
        error(tag_search("v*").answer(good(no_repository))),
        LockError::NoRepository
    );
    let no_refs = ListTagsData {
        repository: Some(ListTagsRepository { refs: None }),
    };
    assert_eq!(error(tag_search("v*").answer(good(no_refs))), LockError::NoRefs);
    assert_eq!(error(tag_search("v*").answer(failed())), failure());
}

#[test]
fn tags_with_given_matches() {
    let page = || {
        tags(
            true,
            "c",
            Some(vec![
                tag("v1", Some(commit("a"))),
                tag("v2", Some(commit("b"))),
            ]),
        )
    };
    let found = done(tag_search("v*").resolve(page(), &vec![false, true]));
    assert_eq!(found.into_current(), locked("b", Some("v2")));
    let none = tag_search("v*").resolve(page(), &vec![false, false]);
    assert!(matches!(none, Ok(Step::TagSearch(_))));
}

fn branch() -> BranchLookup {
    BranchLookup {
        session: session(Some(locked("abc", None))),
        branch: "main".to_string(),
    }
}

#[test]
fn branches() {
    let same = branch().answer(good(on(commit("abc")))).unwrap();
    assert!(!same.is_changed());
    let moved = branch().answer(good(on(annotated("x", "def")))).unwrap();
    assert_eq!(moved.previous(), Some(&locked("abc", None)));
    assert_eq!(moved.into_current(), locked("def", None));
    let fails = |data| branch().answer(good(data)).unwrap_err();
    assert_eq!(fails(RefInfoData { repository: None }), LockError::NoRepository);
    assert_eq!(fails(ref_info(None)), LockError::BranchNotFound);
    assert_eq!(fails(ref_info(Some(Ref { target: None }))), LockError::NoTarget);
    assert_eq!(fails(on(tree("t"))), LockError::NoTargetCommit(tree("t")));
    assert_eq!(branch().answer(failed()).unwrap_err(), failure());
}

#[test]
fn default_branches() {
    let lookup = || DefaultBranchLookup {
        session: session(None),
    };
    let data = |default_branch_ref| DefaultBranchData {
        repository: Some(DefaultBranchRepository { default_branch_ref }),
    };
    let tip = |oid: Option<&str>| {
        data(Some(DefaultBranchRef {
            name: "main".to_string(),
            target: oid.map(|oid| Commit {
                oid: oid.to_string(),
            }),
        }))
    };
    let found = lookup().answer(good(tip(Some("abc")))).unwrap();
    assert!(found.is_changed());
    assert_eq!(found.into_current(), locked("abc", None));
    let fails = |data| lookup().answer(good(data)).unwrap_err();
    assert_eq!(fails(DefaultBranchData { repository: None }), LockError::NoRepository);
    assert_eq!(fails(data(None)), LockError::NoDefaultBranch);
    assert_eq!(fails(tip(None)), LockError::NoTarget);
    assert_eq!(lookup().answer(failed()).unwrap_err(), failure());
}

#[test]
fn first_releases() {
    let page = || {
        releases(
            false,
            "c",
            Some(vec![
                None,
                release(true, Some("v2-rc"), Some("a")),
                release(false, Some("v1"), Some("b")),
                release(false, Some("v0"), Some("c")),
            ]),
        )
    };
    let proper = done(release_search(false).answer(good(page())));
    assert_eq!(proper.into_current(), locked("b", Some("v1")));
    let any = done(release_search(true).answer(good(page())));
    assert_eq!(any.into_current(), locked("a", Some("v2-rc")));
}

#[test]
fn pages_of_releases() {
    let pre = || Some(vec![release(true, Some("v2-rc"), Some("a"))]);
    let search = match release_search(false).answer(good(releases(true, "c1", pre()))) {
        Ok(Step::ReleaseSearch(search)) => search,
        other => panic!("{other:?}"),
    };
    assert_eq!(
        search.variables(),
        PageVariables {
            owner: "owner".to_string(),
            repo: "repo".to_string(),
            after: Some("c1".to_string()),
        }
    );
    let search = match search.answer(good(releases(true, "c2", Some(vec![])))) {
        Ok(Step::ReleaseSearch(search)) => search,
        other => panic!("{other:?}"),
    };
    assert_eq!(search.variables().after, Some("c2".to_string()));
    assert!(!search.pre_release);
    assert_eq!(
        error(search.answer(good(releases(false, "c3", pre())))),
        LockError::NoRelease
    );
}

#[test]
fn searches_for_releases_that_fail() {
    let fails = |data| error(release_search(false).answer(good(data)));
    assert_eq!(fails(ListReleasesData { repository: None }), LockError::NoRepository);
    assert_eq!(fails(releases(true, "c", None)), LockError::NoRelease);
    let only = |release| releases(true, "c", Some(vec![release]));
    assert_eq!(
        fails(only(release(false, None, Some("a")))),
        LockError::ReleaseWithoutTag
    );
    assert_eq!(
        fails(only(release(false, None, None))),
        LockError::ReleaseWithoutTag
    );
    assert_eq!(
        fails(only(release(false, Some("v1"), None))),
        LockError::TagWithoutCommit
    );
    assert_eq!(error(release_search(false).answer(failed())), failure());
}

#[test]
fn tokens() {
    let config = |entries: Vec<(&str, &str)>| NixConfig {
        access_tokens: AccessTokens::new(
            entries
                .into_iter()
                .map(|(host, token)| (host.to_string(), token.to_string()))
                .collect(),
        ),
    };
    assert_eq!(config(vec![]).github_token(), None);
    assert_eq!(config(vec![("gitlab.com", "a")]).github_token(), None);
    assert_eq!(
        config(vec![("gitlab.com", "a"), ("github.com", "b")]).github_token(),
        Some(&"b".to_string())
    );
    let twice = config(vec![("github.com", "a"), ("x", "c"), ("github.com", "b")]);
    assert_eq!(twice.github_token(), Some(&"b".to_string()));
    assert_eq!(twice.access_tokens.get(&"x".to_string()), Some(&"c".to_string()));
    assert_eq!(twice.access_tokens.get(&"y".to_string()), None);
}
