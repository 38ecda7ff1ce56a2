//! Finding a revision on GitHub.

use vstd::prelude::*;

use crate::search::lemma_first_index;
use crate::sources::github::config::collected;
use crate::sources::github::config::AccessTokens;
use crate::sources::github::config::NixConfig;
use crate::sources::github::data::wanted_release;
use crate::sources::github::data::wanted_tag;
use crate::sources::github::data::DefaultBranchData;
use crate::sources::github::data::ListReleasesData;
use crate::sources::github::data::ListTagsData;
use crate::sources::github::data::PageInfo;
use crate::sources::github::data::RefInfoData;
use crate::sources::github::data::RefTarget;
use crate::sources::github::data::Release;
use crate::sources::github::data::TagNode;
use crate::sources::github::data::TargetKind;
use crate::sources::github::pattern::glob_pattern_error;
use crate::sources::github::pattern::glob_pattern_matches;
use crate::sources::github::pattern::PatternError;
use crate::sources::github::revision_spec;
use crate::sources::github::steps::matches_of;
use crate::sources::github::steps::BranchLookup;
use crate::sources::github::steps::DefaultBranchLookup;
use crate::sources::github::steps::PageVariables;
use crate::sources::github::steps::RefVariables;
use crate::sources::github::steps::ReleaseSearch;
use crate::sources::github::steps::RepositoryVariables;
use crate::sources::github::steps::Session;
use crate::sources::github::steps::Step;
use crate::sources::github::steps::TagLookup;
use crate::sources::github::steps::TagSearch;
use crate::sources::github::GitHub;
use crate::sources::github::Lock;
use crate::sources::github::Spec;
use crate::sources::graphql::Response;
use crate::sources::graphql::ResponseError;
use crate::sources::LockError;
use crate::sources::LockResult;
use crate::text::lemma_cut;
use crate::text::lemma_cut_parts;
use crate::text::lemma_stripped;

verus! {

/// Whether a result locks what was found. It is unchanged exactly where there was a lock before
/// and it had the same commit; otherwise it tells which lock is replaced, if any.
pub open spec fn locks(before: Option<Lock>, found: Lock, result: LockResult<Lock>) -> bool {
    match result {
        LockResult::Unchanged(now) => {
            &&& now == found
            &&& before matches Some(old)
            &&& old.rev@ == found.rev@
        },
        LockResult::Changed(replaced, now) => {
            &&& now == found
            &&& replaced == before
            &&& before matches Some(old) ==> old.rev@ != found.rev@
        },
    }
}

/// Whether a ref that points to `target` leads to the commit `oid`: because that is what it points
/// to, or because it points to an annotated tag that is on it.
pub open spec fn leads_to(target: RefTarget, oid: String) -> bool {
    ||| target.on is Commit && target.oid == oid
    ||| target.on matches TargetKind::Tag { target_oid } && target_oid == oid
}

/// A lock is unchanged exactly where it has the commit of the one before.
pub proof fn law_resolve(session: Session, found: Lock, result: LockResult<Lock>)
    requires
        call_ensures(Session::resolve, (session, found), result),
    ensures
        locks(session.lock, found, result),
{
}

/// An object leads to a commit exactly where it is a commit or a tag, and to one only.
pub proof fn law_oid(target: RefTarget, oid: Option<&String>)
    requires
        call_ensures(RefTarget::oid, (&target,), oid),
    ensures
        match oid {
            Some(oid) => leads_to(target, *oid),
            None => target.on is Other,
        },
{
}

/// A branch is locked to the commit that it leads to, whatever the branch is called and whatever
/// was locked before; where it leads to none, the reason is told.
pub proof fn law_branch(
    lookup: BranchLookup,
    response: Response<RefInfoData>,
    result: Result<LockResult<Lock>, LockError>,
)
    requires
        call_ensures(BranchLookup::answer, (lookup, response), result),
    ensures
        response.errors is Some ==> result matches Err(LockError::Response(
            ResponseError::Errors(_),
        )),
        response.errors is None && response.data is None ==> result matches Err(
            LockError::Response(ResponseError::NoData),
        ),
        response.errors is None ==> (response.data matches Some(data) ==> {
            &&& data.repository is None ==> result == Err::<LockResult<Lock>, LockError>(
                LockError::NoRepository,
            )
            &&& data.repository matches Some(repository) ==> {
                &&& repository.ref_ is None ==> result == Err::<LockResult<Lock>, LockError>(
                    LockError::BranchNotFound,
                )
                &&& repository.ref_ matches Some(found) ==> {
                    &&& found.target is None ==> result == Err::<LockResult<Lock>, LockError>(
                        LockError::NoTarget,
                    )
                    &&& found.target matches Some(target) ==> {
                        &&& forall|oid: String| #[trigger]
                            leads_to(target, oid) ==> (result matches Ok(result) && locks(
                                lookup.session.lock,
                                Lock { rev: oid, tag: None },
                                result,
                            ))
                        &&& target.on is Other ==> result == Err::<LockResult<Lock>, LockError>(
                            LockError::NoTargetCommit(target),
                        )
                    }
                }
            }
        }),
{
}

/// The default branch is locked to the commit at its tip, whatever was locked before; where it has
/// none, the reason is told.
pub proof fn law_default_branch(
    lookup: DefaultBranchLookup,
    response: Response<DefaultBranchData>,
    result: Result<LockResult<Lock>, LockError>,
)
    requires
        call_ensures(DefaultBranchLookup::answer, (lookup, response), result),
    ensures
        response.errors is Some ==> result matches Err(LockError::Response(
            ResponseError::Errors(_),
        )),
        response.errors is None && response.data is None ==> result matches Err(
            LockError::Response(ResponseError::NoData),
        ),
        response.errors is None ==> (response.data matches Some(data) ==> {
            &&& data.repository is None ==> result == Err::<LockResult<Lock>, LockError>(
                LockError::NoRepository,
            )
            &&& data.repository matches Some(repository) ==> {
                &&& repository.default_branch_ref is None ==> result == Err::<
                    LockResult<Lock>,
                    LockError,
                >(LockError::NoDefaultBranch)
                &&& repository.default_branch_ref matches Some(branch) ==> {
                    &&& branch.target is None ==> result == Err::<LockResult<Lock>, LockError>(
                        LockError::NoTarget,
                    )
                    &&& branch.target matches Some(commit) ==> (result matches Ok(result)
                        && locks(
                        lookup.session.lock,
                        Lock { rev: commit.oid, tag: None },
                        result,
                    ))
                }
            }
        }),
{
}

/// A tag of the very name is locked to the commit that it leads to. Where there is none the name is
/// searched for as a pattern, from the start of the listing, unless it is no pattern.
pub proof fn law_tag_lookup(
    lookup: TagLookup,
    data: RefInfoData,
    checked: Result<(), PatternError>,
    next: Result<Step, LockError>,
)
    requires
        call_ensures(TagLookup::resolve, (lookup, data, checked), next),
    ensures
        data.repository is None ==> next == Err::<Step, LockError>(LockError::NoRepository),
        data.repository matches Some(repository) ==> {
            &&& repository.ref_ is None && checked is Ok ==> next == Ok::<Step, LockError>(
                Step::TagSearch(
                    TagSearch { session: lookup.session, pattern: lookup.tag, cursor: None },
                ),
            )
            &&& repository.ref_ is None ==> (checked matches Err(error) ==> next == Err::<
                Step,
                LockError,
            >(LockError::InvalidPattern(error)))
            &&& repository.ref_ matches Some(found) ==> {
                &&& found.target is None ==> next == Err::<Step, LockError>(LockError::NoTarget)
                &&& found.target matches Some(target) ==> {
                    &&& forall|oid: String| #[trigger]
                        leads_to(target, oid) ==> (next matches Ok(Step::Done(result)) && locks(
                            lookup.session.lock,
                            Lock { rev: oid, tag: Some(lookup.tag) },
                            result,
                        ))
                    &&& target.on is Other ==> next == Err::<Step, LockError>(
                        LockError::NotATag(target),
                    )
                }
            }
        },
{
}

/// A question for a tag of some name is answered the same way whatever the name would mean as a
/// pattern, unless there is no such tag; then the `glob` crate decides whether there is anything
/// to search for.
pub proof fn law_tag_answer(
    lookup: TagLookup,
    response: Response<RefInfoData>,
    next: Result<Step, LockError>,
)
    requires
        call_ensures(TagLookup::answer, (lookup, response), next),
    ensures
        response.errors is Some ==> next matches Err(LockError::Response(ResponseError::Errors(_))),
        response.errors is None && response.data is None ==> next matches Err(
            LockError::Response(ResponseError::NoData),
        ),
        response.errors is None ==> (response.data matches Some(data) ==> {
            &&& data.repository is None ==> next == Err::<Step, LockError>(LockError::NoRepository)
            &&& data.repository matches Some(repository) ==> {
                &&& repository.ref_ is None ==> {
                    ||| next == Ok::<Step, LockError>(
                        Step::TagSearch(
                            TagSearch {
                                session: lookup.session,
                                pattern: lookup.tag,
                                cursor: None,
                            },
                        ),
                    )
                    ||| next matches Err(LockError::InvalidPattern(_))
                }
                &&& repository.ref_ is None && !lookup.tag@.contains('\\') ==> match (
                    glob_pattern_error(lookup.tag@),
                    next,
                ) {
                    (None, Ok(_)) => true,
                    (Some(text), Err(LockError::InvalidPattern(error))) => error.text@ == text,
                    _ => false,
                }
                &&& repository.ref_ matches Some(found) ==> {
                    &&& found.target is None ==> next == Err::<Step, LockError>(LockError::NoTarget)
                    &&& found.target matches Some(target) ==> {
                        &&& forall|oid: String| #[trigger]
                            leads_to(target, oid) ==> (next matches Ok(Step::Done(result))
                                && locks(
                                lookup.session.lock,
                                Lock { rev: oid, tag: Some(lookup.tag) },
                                result,
                            ))
                        &&& target.on is Other ==> next == Err::<Step, LockError>(
                            LockError::NotATag(target),
                        )
                    }
                }
            }
        }),
{
}

/// Whether a tag of a listing can be locked: it is there, and leads to a commit.
pub open spec fn lockable(node: Option<TagNode>) -> bool {
    node matches Some(tag) && tag.target matches Some(target) && target.on !is Other
}

/// Whether `next` is what a page of tags calls for: the first tag that matches and can be locked is
/// locked, whatever was locked before and whether or not another page follows; where there is
/// none, the search goes on behind the page, or ends where no page follows.
pub open spec fn follows_from_tags(
    search: TagSearch,
    page_info: PageInfo,
    nodes: Seq<Option<TagNode>>,
    matched: Seq<bool>,
    next: Result<Step, LockError>,
) -> bool {
    &&& forall|i: int, oid: String|
        #![trigger nodes[i], leads_to(nodes[i]->0.target->0, oid)]
        {
            &&& 0 <= i < nodes.len()
            &&& matched[i]
            &&& nodes[i] matches Some(tag)
            &&& tag.target matches Some(target)
            &&& leads_to(target, oid)
            &&& forall|j: int| 0 <= j < i && matched[j] ==> !lockable(#[trigger] nodes[j])
        } ==> (next matches Ok(Step::Done(result)) && locks(
            search.session.lock,
            Lock { rev: oid, tag: Some(nodes[i]->0.name) },
            result,
        ))
    &&& (forall|j: int| 0 <= j < nodes.len() && matched[j] ==> !lockable(#[trigger] nodes[j]))
        ==> next == (if page_info.has_next_page {
        Ok::<Step, LockError>(
            Step::TagSearch(
                TagSearch {
                    session: search.session,
                    pattern: search.pattern,
                    cursor: page_info.end_cursor,
                },
            ),
        )
    } else {
        Err(LockError::NoMatchingTag)
    })
}

/// The first tag of a page that matches and leads to a commit is the one that is locked, with its
/// name and that commit.
pub proof fn law_tags(
    search: TagSearch,
    data: ListTagsData,
    matched: Vec<bool>,
    next: Result<Step, LockError>,
)
    requires
        call_ensures(TagSearch::resolve, (search, data, &matched), next),
        data.repository matches Some(repository) && (repository.refs matches Some(page) && (
        page.nodes matches Some(nodes) ==> matched@.len() == nodes@.len())),
    ensures
        ({
            let page = data.repository->0.refs->0;
            follows_from_tags(
                search,
                page.page_info,
                match page.nodes {
                    Some(nodes) => nodes@,
                    None => Seq::empty(),
                },
                matched@,
                next,
            )
        }),
{
    let page = data.repository->0.refs->0;
    lemma_tags(
        search,
        page.page_info,
        match page.nodes {
            Some(nodes) => nodes@,
            None => Seq::empty(),
        },
        matched@,
        next,
        data,
    );
}

/// What a page comes to is what it calls for.
proof fn lemma_tags(
    search: TagSearch,
    page_info: PageInfo,
    nodes: Seq<Option<TagNode>>,
    matched: Seq<bool>,
    next: Result<Step, LockError>,
    data: ListTagsData,
)
    requires
        data.repository matches Some(repository) && repository.refs is Some,
        page_info == data.repository->0.refs->0.page_info,
        nodes == data.tags(),
        nodes.len() > 0 ==> matched.len() == nodes.len(),
        next == search.outcome(data, matched),
    ensures
        follows_from_tags(search, page_info, nodes, matched, next),
{
    let page = data.repository->0.refs->0;
    let pairs = nodes.zip_with(matched);
    lemma_first_index(pairs, wanted_tag());
    assert forall|j: int| 0 <= j < nodes.len() implies wanted_tag()(pairs[j]) == (matched[j]
        && lockable(#[trigger] nodes[j])) by {
        assert(pairs[j] == (nodes[j], matched[j]));
    }
    let first = page.first_wanted(matched);
    assert forall|i: int, oid: String|
        #![trigger nodes[i], leads_to(nodes[i]->0.target->0, oid)]
        {
            &&& 0 <= i < nodes.len()
            &&& matched[i]
            &&& nodes[i] matches Some(tag)
            &&& tag.target matches Some(target)
            &&& leads_to(target, oid)
            &&& forall|j: int| 0 <= j < i && matched[j] ==> !lockable(#[trigger] nodes[j])
        } implies next matches Ok(Step::Done(result)) && locks(
        search.session.lock,
        Lock { rev: oid, tag: Some(nodes[i]->0.name) },
        result,
    ) by {
        assert(wanted_tag()(pairs[i]));
        assert(first is Some);
        let k = first->0;
        if k < i {
            assert(lockable(nodes[k]));
        }
        if i < k {
            assert(!wanted_tag()(pairs[i]));
        }
        assert(k == i);
    }
    if forall|j: int| 0 <= j < nodes.len() && matched[j] ==> !lockable(#[trigger] nodes[j]) {
        if let Some(k) = first {
            assert(wanted_tag()(pairs[k]));
            assert(lockable(nodes[k]));
        }
    }
}

/// A listing without a repository, or without tags, is told of.
pub proof fn law_tags_missing(
    search: TagSearch,
    data: ListTagsData,
    matched: Vec<bool>,
    next: Result<Step, LockError>,
)
    requires
        call_ensures(TagSearch::resolve, (search, data, &matched), next),
    ensures
        data.repository is None ==> next == Err::<Step, LockError>(LockError::NoRepository),
        data.repository matches Some(repository) ==> (repository.refs is None ==> next == Err::<
            Step,
            LockError,
        >(LockError::NoRefs)),
{
}

/// Which tags of a page have a name that the `glob` crate matches with a pattern.
pub open spec fn named_by(pattern: Seq<char>, nodes: Seq<Option<TagNode>>) -> Seq<bool> {
    Seq::new(
        nodes.len(),
        |i: int| nodes[i] is Some && glob_pattern_matches(pattern, nodes[i]->0.name@),
    )
}

/// A page of tags is searched for the pattern as the `glob` crate understands it, where no text
/// holds a backslash. Whatever texts it holds, what is locked is a tag of the page that leads to a
/// commit, and else the search goes on behind the page, or ends where no page follows.
pub proof fn law_tags_answer(
    search: TagSearch,
    response: Response<ListTagsData>,
    nodes: Seq<Option<TagNode>>,
    next: Result<Step, LockError>,
)
    requires
        call_ensures(TagSearch::answer, (search, response), next),
        response.errors is None,
        response.data matches Some(data) && (data.repository matches Some(repository)
            && repository.refs is Some),
        nodes == (match response.data->0.repository->0.refs->0.nodes {
            Some(nodes) => nodes@,
            None => Seq::empty(),
        }),
    ensures
        ({
            let page_info = response.data->0.repository->0.refs->0.page_info;
            &&& exists|matched: Seq<bool>|
                {
                    &&& matched.len() == nodes.len()
                    &&& #[trigger] follows_from_tags(search, page_info, nodes, matched, next)
                }
            &&& !search.pattern@.contains('\\') && (forall|i: int|
                0 <= i < nodes.len() ==> (#[trigger] nodes[i] matches Some(tag)
                    ==> !tag.name@.contains('\\'))) ==> follows_from_tags(
                search,
                page_info,
                nodes,
                named_by(search.pattern@, nodes),
                next,
            )
        }),
{
    let data = response.data->0;
    let page_info = data.repository->0.refs->0.page_info;
    let matched = choose|matched: Seq<bool>|
        {
            &&& matches_of(search.pattern@, data.tags(), matched)
            &&& next == #[trigger] search.outcome(data, matched)
        };
    assert(nodes == data.tags());
    lemma_tags(search, page_info, nodes, matched, next, data);
    let named = named_by(search.pattern@, nodes);
    if !search.pattern@.contains('\\') && (forall|i: int|
        0 <= i < nodes.len() ==> (#[trigger] nodes[i] matches Some(tag) ==> !tag.name@.contains(
            '\\',
        ))) {
        assert forall|i: int| 0 <= i < nodes.len() && lockable(
            #[trigger] nodes[i],
        ) implies matched[i] == named[i] by {}
        lemma_same_matches(search, page_info, nodes, matched, named, next);
    }
}

/// An answer without a page of tags is told of.
pub proof fn law_tags_answer_missing(
    search: TagSearch,
    response: Response<ListTagsData>,
    next: Result<Step, LockError>,
)
    requires
        call_ensures(TagSearch::answer, (search, response), next),
    ensures
        response.errors is Some ==> next matches Err(LockError::Response(ResponseError::Errors(_))),
        response.errors is None && response.data is None ==> next matches Err(
            LockError::Response(ResponseError::NoData),
        ),
        response.errors is None ==> (response.data matches Some(data) ==> {
            &&& data.repository is None ==> next == Err::<Step, LockError>(LockError::NoRepository)
            &&& data.repository matches Some(repository) ==> (repository.refs is None ==> next
                == Err::<Step, LockError>(LockError::NoRefs))
        }),
{
}

/// Whether a node that cannot be locked matches makes no difference.
proof fn lemma_same_matches(
    search: TagSearch,
    page_info: PageInfo,
    nodes: Seq<Option<TagNode>>,
    matched: Seq<bool>,
    named: Seq<bool>,
    next: Result<Step, LockError>,
)
    requires
        follows_from_tags(search, page_info, nodes, matched, next),
        forall|i: int|
            0 <= i < nodes.len() && lockable(#[trigger] nodes[i]) ==> matched[i] == named[i],
    ensures
        follows_from_tags(search, page_info, nodes, named, next),
{
    assert forall|i: int, oid: String|
        #![trigger nodes[i], leads_to(nodes[i]->0.target->0, oid)]
        {
            &&& 0 <= i < nodes.len()
            &&& named[i]
            &&& nodes[i] matches Some(tag)
            &&& tag.target matches Some(target)
            &&& leads_to(target, oid)
            &&& forall|j: int| 0 <= j < i && named[j] ==> !lockable(#[trigger] nodes[j])
        } implies next matches Ok(Step::Done(result)) && locks(
        search.session.lock,
        Lock { rev: oid, tag: Some(nodes[i]->0.name) },
        result,
    ) by {
        assert(lockable(nodes[i]));
        assert(matched[i]);
        assert forall|j: int| 0 <= j < i && matched[j] implies !lockable(#[trigger] nodes[j]) by {
            if lockable(nodes[j]) {
                assert(named[j]);
            }
        }
    }
    if forall|j: int| 0 <= j < nodes.len() && named[j] ==> !lockable(#[trigger] nodes[j]) {
        assert forall|j: int| 0 <= j < nodes.len() && matched[j] implies !lockable(
            #[trigger] nodes[j],
        ) by {
            if lockable(nodes[j]) {
                assert(named[j]);
            }
        }
    }
}

/// The first release of a page that will do is locked, with the name of its tag and the commit that
/// the tag is on, whatever was locked before: proper releases will always do, pre-releases where
/// they are included. Where none will do the search goes on behind the page, or ends where no page
/// follows.
pub proof fn law_releases(
    search: ReleaseSearch,
    response: Response<ListReleasesData>,
    next: Result<Step, LockError>,
)
    requires
        call_ensures(ReleaseSearch::answer, (search, response), next),
    ensures
        response.errors is Some ==> next matches Err(LockError::Response(ResponseError::Errors(_))),
        response.errors is None && response.data is None ==> next matches Err(
            LockError::Response(ResponseError::NoData),
        ),
        response.errors is None ==> (response.data matches Some(data) ==> {
            &&& data.repository is None ==> next == Err::<Step, LockError>(LockError::NoRepository)
            &&& data.repository matches Some(repository) ==> {
                let page = repository.releases;
                &&& page.nodes is None ==> next == Err::<Step, LockError>(LockError::NoRelease)
                &&& page.nodes matches Some(nodes) ==> {
                    &&& forall|i: int|
                        {
                            &&& 0 <= i < nodes@.len()
                            &&& #[trigger] nodes@[i] matches Some(release)
                            &&& search.pre_release || !release.is_prerelease
                            &&& forall|j: int|
                                0 <= j < i ==> (#[trigger] nodes@[j] matches Some(earlier)
                                    ==> !search.pre_release && earlier.is_prerelease)
                        } ==> {
                            let release = nodes@[i]->0;
                            match (release.tag, release.tag_commit) {
                                (Some(tag), Some(commit)) => next matches Ok(Step::Done(result))
                                    && locks(
                                    search.session.lock,
                                    Lock { rev: commit.oid, tag: Some(tag.name) },
                                    result,
                                ),
                                (Some(_), None) => next == Err::<Step, LockError>(
                                    LockError::TagWithoutCommit,
                                ),
                                (None, _) => next == Err::<Step, LockError>(
                                    LockError::ReleaseWithoutTag,
                                ),
                            }
                        }
                    &&& (forall|j: int|
                        0 <= j < nodes@.len() ==> (#[trigger] nodes@[j] matches Some(release)
                            ==> !search.pre_release && release.is_prerelease)) ==> next == (
                    if page.page_info.has_next_page {
                        Ok::<Step, LockError>(
                            Step::ReleaseSearch(
                                ReleaseSearch {
                                    session: search.session,
                                    pre_release: search.pre_release,
                                    cursor: page.page_info.end_cursor,
                                },
                            ),
                        )
                    } else {
                        Err(LockError::NoRelease)
                    })
                }
            }
        }),
{
    if response.errors is None && response.data is Some && response.data->0.repository is Some {
        let page = response.data->0.repository->0.releases;
        if let Some(nodes) = page.nodes {
            let wanted = wanted_release(search.pre_release);
            lemma_first_index(nodes@, wanted);
            let first = page.first_wanted(search.pre_release);
            assert forall|i: int|
                {
                    &&& 0 <= i < nodes@.len()
                    &&& #[trigger] nodes@[i] matches Some(release)
                    &&& search.pre_release || !release.is_prerelease
                    &&& forall|j: int|
                        0 <= j < i ==> (#[trigger] nodes@[j] matches Some(earlier)
                            ==> !search.pre_release && earlier.is_prerelease)
                } implies first == Some(i) by {
                assert(wanted(nodes@[i]));
                let k = first->0;
                if k < i {
                    assert(wanted(nodes@[k]));
                }
                if i < k {
                    assert(!wanted(nodes@[i]));
                }
            }
            if let Some(k) = first {
                assert(wanted(nodes@[k]));
            }
        }
    }
}

/// What is asked for is the tag or the branch of the name, in full, in the repository that is being
/// locked. A tag and a branch are never asked for in the same words.
pub proof fn law_refs_asked_for(
    tag: TagLookup,
    tag_variables: RefVariables,
    branch: BranchLookup,
    branch_variables: RefVariables,
)
    requires
        call_ensures(TagLookup::variables, (&tag,), tag_variables),
        call_ensures(BranchLookup::variables, (&branch,), branch_variables),
    ensures
        tag_variables.owner@ == tag.session.owner@,
        tag_variables.repo@ == tag.session.repo@,
        tag_variables.q_tag@ == "refs/tags/"@ + tag.tag@,
        branch_variables.owner@ == branch.session.owner@,
        branch_variables.repo@ == branch.session.repo@,
        branch_variables.q_tag@ == "refs/heads/"@ + branch.branch@,
        tag_variables.q_tag@ != branch_variables.q_tag@,
{
    reveal_strlit("refs/tags/");
    reveal_strlit("refs/heads/");
    assert(tag_variables.q_tag@[5] == 't');
    assert(branch_variables.q_tag@[5] == 'h');
}

/// Pages are asked for in the repository that is being locked, from where the page before ended.
pub proof fn law_pages_asked_for(
    tags: TagSearch,
    tag_variables: PageVariables,
    releases: ReleaseSearch,
    release_variables: PageVariables,
    branch: DefaultBranchLookup,
    branch_variables: RepositoryVariables,
)
    requires
        call_ensures(TagSearch::variables, (&tags,), tag_variables),
        call_ensures(ReleaseSearch::variables, (&releases,), release_variables),
        call_ensures(DefaultBranchLookup::variables, (&branch,), branch_variables),
    ensures
        tag_variables.owner@ == tags.session.owner@,
        tag_variables.repo@ == tags.session.repo@,
        tag_variables.after == tags.cursor,
        release_variables.owner@ == releases.session.owner@,
        release_variables.repo@ == releases.session.repo@,
        release_variables.after == releases.cursor,
        branch_variables.owner@ == branch.session.owner@,
        branch_variables.repo@ == branch.session.repo@,
{
}

/// Whether a session is about a repository that was locked before or not.
pub open spec fn is_about(
    session: Session,
    owner: Seq<char>,
    repo: Seq<char>,
    lock: Option<&Lock>,
) -> bool {
    &&& session.owner@ == owner
    &&& session.repo@ == repo
    &&& match (session.lock, lock) {
        (Some(held), Some(lock)) => held == *lock,
        (None, None) => true,
        _ => false,
    }
}

/// Whether locking may begin with `step`: a commit is locked at once, and everything else begins
/// with a question for that very thing in the repository.
pub open spec fn begins(
    owner: Seq<char>,
    repo: Seq<char>,
    rev_spec: Spec,
    lock: Option<&Lock>,
    step: Step,
) -> bool {
    match (rev_spec, step) {
        (Spec::Rev { rev }, Step::Done(result)) => locks(
            match lock {
                Some(lock) => Some(*lock),
                None => None,
            },
            Lock { rev, tag: None },
            result,
        ),
        (Spec::Tag { tag }, Step::TagLookup(lookup)) => {
            is_about(lookup.session, owner, repo, lock) && lookup.tag == tag
        },
        (Spec::Branch { branch: Some(branch) }, Step::BranchLookup(lookup)) => {
            is_about(lookup.session, owner, repo, lock) && lookup.branch == branch
        },
        (Spec::Branch { branch: None }, Step::DefaultBranchLookup(lookup)) => {
            is_about(lookup.session, owner, repo, lock)
        },
        (Spec::Release { pre_release }, Step::ReleaseSearch(search)) => {
            &&& is_about(search.session, owner, repo, lock)
            &&& search.pre_release == pre_release
            &&& search.cursor is None
        },
        _ => false,
    }
}

/// The owner of the repository stands between `github:` and the first slash of the spec, and its
/// name behind; locking begins there with what the revision calls for.
pub proof fn law_begin(
    owner: Seq<char>,
    repo: Seq<char>,
    spec: String,
    rev_spec: Spec,
    lock: Option<&Lock>,
    step: Step,
)
    requires
        !owner.contains('/'),
        spec@ == "github:"@ + (owner + seq!['/'] + repo),
        call_ensures(<GitHub as crate::sources::Source>::lock, (spec, rev_spec, lock), step),
    ensures
        begins(owner, repo, rev_spec, lock, step),
{
    lemma_stripped("github:"@, owner + seq!['/'] + repo);
    lemma_cut(owner, '/', repo);
}

/// The same holds where the spec is checked first; and it is turned down exactly where it does not
/// start with `github:` or has no slash behind that.
pub proof fn law_checked_begin(
    spec: String,
    rev_spec: Spec,
    lock: Option<&Lock>,
    step: Option<Step>,
)
    requires
        call_ensures(GitHub::checked_lock, (spec, rev_spec, lock), step),
    ensures
        step is None <==> {
            ||| !"github:"@.is_prefix_of(spec@)
            ||| !spec@.skip("github:"@.len() as int).contains('/')
        },
        forall|owner: Seq<char>, repo: Seq<char>|
            !owner.contains('/') && spec@ == #[trigger] ("github:"@ + (owner + seq!['/'] + repo))
                ==> (step matches Some(step) && begins(owner, repo, rev_spec, lock, step)),
{
    if "github:"@.is_prefix_of(spec@) {
        lemma_cut_parts(spec@.skip("github:"@.len() as int), '/');
    }
    assert forall|owner: Seq<char>, repo: Seq<char>|
        !owner.contains('/') && spec@ == #[trigger] ("github:"@ + (owner + seq![
            '/',
        ] + repo)) implies step matches Some(step) && begins(owner, repo, rev_spec, lock, step) by {
        lemma_stripped("github:"@, owner + seq!['/'] + repo);
        lemma_cut(owner, '/', repo);
    }
}

/// What the spec file says first in the order of commit, tag, branch and release is what is meant,
/// and the rest makes no difference.
pub proof fn law_revision_spec(
    rev: Option<String>,
    tag: Option<String>,
    branch: Option<String>,
    pre_release: Option<bool>,
    spec: Spec,
)
    requires
        call_ensures(revision_spec, (rev, tag, branch, pre_release), spec),
    ensures
        spec is Rev <==> rev is Some,
        spec matches Spec::Rev { rev: meant } ==> rev == Some(meant),
        spec is Tag <==> rev is None && tag is Some,
        spec matches Spec::Tag { tag: meant } ==> tag == Some(meant),
        spec is Release <==> rev is None && tag is None && branch is None && pre_release is Some,
        spec matches Spec::Release { pre_release: meant } ==> pre_release == Some(meant),
        spec matches Spec::Branch { branch: meant } ==> branch == meant,
{
}

/// Where nothing is known of the revision it is the latest proper release.
pub proof fn law_default(spec: Spec)
    requires
        call_ensures(<Spec as Default>::default, (), spec),
    ensures
        spec matches Spec::Release { pre_release } && !pre_release,
{
}

/// Whether the entry at `i` is the last one for a host.
pub open spec fn is_last_for(entries: Seq<(String, String)>, host: Seq<char>, i: int) -> bool {
    &&& 0 <= i < entries.len()
    &&& entries[i].0@ == host
    &&& forall|j: int| i < j < entries.len() ==> (#[trigger] entries[j]).0@ != host
}

/// Of several entries for a host the last one counts.
proof fn lemma_last_entry(entries: Seq<(String, String)>, host: Seq<char>, i: int)
    requires
        is_last_for(entries, host, i),
    ensures
        collected(entries).contains_pair(host, entries[i].1),
    decreases entries.len(),
{
    if i < entries.len() - 1 {
        let before = entries.drop_last();
        assert(entries[entries.len() - 1].0@ != host);
        lemma_last_entry(before, host, i);
    }
}

/// Without an entry for a host there is nothing for it.
proof fn lemma_no_entry(entries: Seq<(String, String)>, host: Seq<char>)
    requires
        forall|i: int| 0 <= i < entries.len() ==> (#[trigger] entries[i]).0@ != host,
    ensures
        !collected(entries).contains_key(host),
    decreases entries.len(),
{
    if entries.len() > 0 {
        assert(entries[entries.len() - 1].0@ != host);
        lemma_no_entry(entries.drop_last(), host);
    }
}

/// The token for GitHub is that of the last entry for `github.com` among those that were collected,
/// and there is none where there is no such entry.
pub proof fn law_token(
    entries: Vec<(String, String)>,
    tokens: AccessTokens,
    config: NixConfig,
    token: Option<&String>,
    i: int,
)
    requires
        call_ensures(AccessTokens::new, (entries,), tokens),
        config.access_tokens == tokens,
        call_ensures(NixConfig::github_token, (&config,), token),
    ensures
        is_last_for(entries@, "github.com"@, i) ==> (token matches Some(token) && *token
            == entries@[i].1),
        (forall|j: int| 0 <= j < entries@.len() ==> (#[trigger] entries@[j]).0@ != "github.com"@)
            ==> token is None,
{
    if is_last_for(entries@, "github.com"@, i) {
        lemma_last_entry(entries@, "github.com"@, i);
    }
    if forall|j: int| 0 <= j < entries@.len() ==> (#[trigger] entries@[j]).0@ != "github.com"@ {
        lemma_no_entry(entries@, "github.com"@);
    }
}

/// The token for any host is that of the last entry for it among those that were collected, and
/// there is none where there is no such entry.
pub proof fn law_any_token(
    entries: Vec<(String, String)>,
    tokens: AccessTokens,
    host: String,
    token: Option<&String>,
    i: int,
)
    requires
        call_ensures(AccessTokens::new, (entries,), tokens),
        call_ensures(AccessTokens::get, (&tokens, &host), token),
    ensures
        is_last_for(entries@, host@, i) ==> (token matches Some(token) && *token == entries@[i].1),
        (forall|j: int| 0 <= j < entries@.len() ==> (#[trigger] entries@[j]).0@ != host@) ==> token
            is None,
{
    if is_last_for(entries@, host@, i) {
        lemma_last_entry(entries@, host@, i);
    }
    if forall|j: int| 0 <= j < entries@.len() ==> (#[trigger] entries@[j]).0@ != host@ {
        lemma_no_entry(entries@, host@);
    }
}

} // verus!
