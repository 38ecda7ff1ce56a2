//! What holds of locking revisions as a whole.

use vstd::prelude::*;

use super::archive_url;
use super::data::is_wanted_release;
use super::data::is_wanted_tag;
use super::data::wanted_release;
use super::data::wanted_tag;
use super::data::RefInfoData;
use super::data::Refs;
use super::data::Releases;
use super::first_step;
use super::owner_and_repo;
use super::pattern::PatternError;
use super::steps::ReleaseSearch;
use super::steps::Session;
use super::steps::Step;
use super::steps::TagLookup;
use super::steps::TagSearch;
use super::GitHub;
use super::Lock;
use super::Spec;
use crate::search::lemma_first_index;
use crate::sources::source_kind;
use crate::sources::LockError;
use crate::sources::LockResult;
use crate::sources::Source;
use crate::sources::SourceKind;
use crate::text::cut;
use crate::text::lemma_cut;
use crate::text::lemma_cut_parts;
use crate::text::lemma_stripped;
use crate::text::stripped;

verus! {

/// A lock counts as changed exactly where there was none before or it had another commit. Either
/// way the lock that was found is the one that now holds, and a change tells what it replaces.
pub proof fn law_resolved(session: Session, found: Lock)
    ensures
        session.resolved(found).current_lock() == found,
        session.resolved(found) is Changed <==> (session.lock matches Some(lock) ==> lock.rev@
            != found.rev@),
        session.resolved(found) is Changed ==> session.resolved(found).old_lock() == session.lock,
{
}

/// Locking the same commit again, with the lock that the first time came to, is no change.
pub proof fn law_relocking_is_no_change(first: Session, second: Session, found: Lock, again: Lock)
    requires
        second.lock == Some(first.resolved(found).current_lock()),
        again.rev@ == found.rev@,
    ensures
        second.resolved(again) == LockResult::Unchanged(again),
{
}

/// A spec that names a commit by its hash is locked to that commit, and asks the server nothing.
pub proof fn law_rev_is_taken_as_it_is(session: Session, rev: String)
    ensures
        first_step(session, Spec::Rev { rev }) matches Step::Done(result)
            && result.current_lock() == (Lock { rev, tag: None }),
{
}

/// A tag of the very name goes before all that the name may match as a pattern: where there is
/// such a tag, it makes no difference whether the name is a pattern at all.
pub proof fn law_a_name_goes_before_a_pattern(
    lookup: TagLookup,
    data: RefInfoData,
    checked: Result<(), PatternError>,
    other: Result<(), PatternError>,
)
    requires
        data.repository matches Some(repository) && repository.ref_ is Some,
    ensures
        lookup.outcome(data, checked) == lookup.outcome(data, other),
        lookup.outcome(data, checked) matches Ok(step) ==> {
            &&& step matches Step::Done(result)
            &&& result.current_lock().tag == Some(lookup.tag)
        },
{
}

/// A spec is one of a source on GitHub exactly where it starts with `github:`, so that what
/// follows is always there to be read.
pub proof fn law_github_specs(spec: Seq<char>)
    ensures
        source_kind(spec) == Ok::<SourceKind, LockError>(SourceKind::GitHub) <==> stripped(
            spec,
            "github:"@,
        ) is Some,
        GitHub::accepts(spec) ==> source_kind(spec) == Ok::<SourceKind, LockError>(
            SourceKind::GitHub,
        ),
{
    reveal_strlit("github");
    reveal_strlit("github:");
    let scheme = "github"@;
    assert("github:"@ =~= scheme + seq![':']);
    assert(!scheme.contains(':'));
    assert(GitHub::scheme_names() =~= seq![scheme]);
    assert(GitHub::scheme_names()[0] == scheme);
    if stripped(spec, "github:"@) is Some {
        let rest = spec.skip("github:"@.len() as int);
        assert(spec =~= scheme + seq![':'] + rest);
        lemma_cut(scheme, ':', rest);
    }
    if source_kind(spec) == Ok::<SourceKind, LockError>(SourceKind::GitHub) {
        lemma_cut_parts(spec, ':');
        let (found, rest) = cut(spec, ':')->0;
        assert(found == scheme);
        assert(spec =~= "github:"@ + rest);
        lemma_stripped("github:"@, rest);
    }
}

/// The tarball of a commit is fetched from the repository that the spec names, whatever else the
/// name of the repository may hold.
pub proof fn law_archive_url(owner: Seq<char>, repo: Seq<char>, lock: Lock)
    requires
        !owner.contains('/'),
    ensures
        owner_and_repo("github:"@ + (owner + seq!['/'] + repo)) == Some((owner, repo)),
        crate::sources::Lock::url_text(&lock, "github:"@ + (owner + seq!['/'] + repo)) == Some(
            archive_url(owner, repo, lock.rev@),
        ),
{
    lemma_stripped("github:"@, owner + seq!['/'] + repo);
    lemma_cut(owner, '/', repo);
}

/// Whether a page of releases sends the search on to the next page.
pub open spec fn goes_past_releases(page: Releases, pre_release: bool) -> bool {
    page.nodes is Some && page.first_wanted(pre_release) is None && page.page_info.has_next_page
}

/// What the search comes to that gets these pages in turn.
pub open spec fn search_releases(search: ReleaseSearch, pages: Seq<Releases>) -> Result<
    Step,
    LockError,
>
    decreases pages.len(),
{
    if pages.len() == 0 {
        Ok(Step::ReleaseSearch(search))
    } else {
        match search.page_outcome(pages[0]) {
            Ok(Step::ReleaseSearch(next)) => search_releases(next, pages.drop_first()),
            outcome => outcome,
        }
    }
}

/// The first page of releases that does not send the search on decides it.
pub proof fn law_release_search(search: ReleaseSearch, pages: Seq<Releases>, k: int)
    requires
        0 <= k < pages.len(),
        forall|j: int| 0 <= j < k ==> goes_past_releases(#[trigger] pages[j], search.pre_release),
        !goes_past_releases(pages[k], search.pre_release),
    ensures
        search_releases(search, pages) == search.page_outcome(pages[k]),
    decreases k,
{
    if k > 0 {
        assert(goes_past_releases(pages[0], search.pre_release));
        let next = ReleaseSearch {
            session: search.session,
            pre_release: search.pre_release,
            cursor: pages[0].page_info.end_cursor,
        };
        let rest = pages.drop_first();
        assert forall|j: int| 0 <= j < k - 1 implies goes_past_releases(
            #[trigger] rest[j],
            next.pre_release,
        ) by {
            assert(rest[j] == pages[j + 1]);
        }
        assert(rest[k - 1] == pages[k]);
        law_release_search(next, rest, k - 1);
    }
}

/// A search that every page sends on asks for what follows the last page.
pub proof fn law_release_search_goes_on(search: ReleaseSearch, pages: Seq<Releases>)
    requires
        pages.len() > 0,
        forall|j: int|
            0 <= j < pages.len() ==> goes_past_releases(#[trigger] pages[j], search.pre_release),
    ensures
        search_releases(search, pages) == Ok::<Step, LockError>(
            Step::ReleaseSearch(
                ReleaseSearch {
                    session: search.session,
                    pre_release: search.pre_release,
                    cursor: pages.last().page_info.end_cursor,
                },
            ),
        ),
    decreases pages.len(),
{
    assert(goes_past_releases(pages[0], search.pre_release));
    let next = ReleaseSearch {
        session: search.session,
        pre_release: search.pre_release,
        cursor: pages[0].page_info.end_cursor,
    };
    let rest = pages.drop_first();
    assert forall|j: int| 0 <= j < rest.len() implies goes_past_releases(
        #[trigger] rest[j],
        next.pre_release,
    ) by {
        assert(rest[j] == pages[j + 1]);
    }
    if rest.len() > 0 {
        law_release_search_goes_on(next, rest);
        assert(rest.last() == pages.last());
    } else {
        assert(pages.last() == pages[0]);
    }
}

/// The release at which a search ends is the first of the whole listing that will do: none on an
/// earlier page and none before it on its page would. It is no pre-release unless those are
/// included.
pub proof fn law_first_release(search: ReleaseSearch, pages: Seq<Releases>, k: int)
    requires
        0 <= k < pages.len(),
        forall|j: int| 0 <= j < k ==> goes_past_releases(#[trigger] pages[j], search.pre_release),
        !goes_past_releases(pages[k], search.pre_release),
    ensures
        search_releases(search, pages) matches Ok(Step::Done(result)) ==> {
            &&& exists|i: int|
                {
                    &&& 0 <= i < pages[k].nodes->0@.len()
                    &&& #[trigger] pages[k].nodes->0@[i] matches Some(release)
                    &&& search.pre_release || !release.is_prerelease
                    &&& release.tag matches Some(tag)
                    &&& release.tag_commit matches Some(commit)
                    &&& result == search.session.resolved(
                        Lock { rev: commit.oid, tag: Some(tag.name) },
                    )
                    &&& forall|m: int|
                        0 <= m < i ==> !is_wanted_release(
                            #[trigger] pages[k].nodes->0@[m],
                            search.pre_release,
                        )
                }
            &&& forall|j: int, m: int|
                0 <= j < k && 0 <= m < pages[j].nodes->0@.len() ==> !is_wanted_release(
                    #[trigger] pages[j].nodes->0@[m],
                    search.pre_release,
                )
        },
{
    law_release_search(search, pages, k);
    let wanted = wanted_release(search.pre_release);
    if search_releases(search, pages) matches Ok(Step::Done(_)) {
        let nodes = pages[k].nodes->0@;
        lemma_first_index(nodes, wanted);
        let i = pages[k].first_wanted(search.pre_release)->0;
        assert(wanted(nodes[i]));
        assert forall|m: int| 0 <= m < i implies !is_wanted_release(
            #[trigger] nodes[m],
            search.pre_release,
        ) by {
            assert(!wanted(nodes[m]));
        }
        assert forall|j: int, m: int|
            0 <= j < k && 0 <= m < pages[j].nodes->0@.len() implies !is_wanted_release(
            #[trigger] pages[j].nodes->0@[m],
            search.pre_release,
        ) by {
            assert(goes_past_releases(pages[j], search.pre_release));
            lemma_first_index(pages[j].nodes->0@, wanted);
            assert(!wanted(pages[j].nodes->0@[m]));
        }
    }
}

/// Whether a page of tags, given which of their names match, sends the search on to the next page.
pub open spec fn goes_past_tags(page: (Refs, Seq<bool>)) -> bool {
    page.0.page_info.has_next_page && page.0.first_wanted(page.1) is None
}

/// What the search comes to that gets these pages in turn, each with which of its names match.
pub open spec fn search_tags(search: TagSearch, pages: Seq<(Refs, Seq<bool>)>) -> Result<
    Step,
    LockError,
>
    decreases pages.len(),
{
    if pages.len() == 0 {
        Ok(Step::TagSearch(search))
    } else {
        match search.page_outcome(pages[0].0, pages[0].1) {
            Ok(Step::TagSearch(next)) => search_tags(next, pages.drop_first()),
            outcome => outcome,
        }
    }
}

/// The first page of tags that does not send the search on decides it.
pub proof fn law_tag_search(search: TagSearch, pages: Seq<(Refs, Seq<bool>)>, k: int)
    requires
        0 <= k < pages.len(),
        forall|j: int| 0 <= j < k ==> goes_past_tags(#[trigger] pages[j]),
        !goes_past_tags(pages[k]),
    ensures
        search_tags(search, pages) == search.page_outcome(pages[k].0, pages[k].1),
    decreases k,
{
    if k > 0 {
        assert(goes_past_tags(pages[0]));
        let next = TagSearch {
            session: search.session,
            pattern: search.pattern,
            cursor: pages[0].0.page_info.end_cursor,
        };
        let rest = pages.drop_first();
        assert forall|j: int| 0 <= j < k - 1 implies goes_past_tags(#[trigger] rest[j]) by {
            assert(rest[j] == pages[j + 1]);
        }
        assert(rest[k - 1] == pages[k]);
        law_tag_search(next, rest, k - 1);
    }
}

/// A search that every page sends on asks for what follows the last page.
pub proof fn law_tag_search_goes_on(search: TagSearch, pages: Seq<(Refs, Seq<bool>)>)
    requires
        pages.len() > 0,
        forall|j: int| 0 <= j < pages.len() ==> goes_past_tags(#[trigger] pages[j]),
    ensures
        search_tags(search, pages) == Ok::<Step, LockError>(
            Step::TagSearch(
                TagSearch {
                    session: search.session,
                    pattern: search.pattern,
                    cursor: pages.last().0.page_info.end_cursor,
                },
            ),
        ),
    decreases pages.len(),
{
    assert(goes_past_tags(pages[0]));
    let next = TagSearch {
        session: search.session,
        pattern: search.pattern,
        cursor: pages[0].0.page_info.end_cursor,
    };
    let rest = pages.drop_first();
    assert forall|j: int| 0 <= j < rest.len() implies goes_past_tags(#[trigger] rest[j]) by {
        assert(rest[j] == pages[j + 1]);
    }
    if rest.len() > 0 {
        law_tag_search_goes_on(next, rest);
        assert(rest.last() == pages.last());
    } else {
        assert(pages.last() == pages[0]);
    }
}

/// The tag at which a search ends is the first of the whole listing that matches and leads to a
/// commit: none on an earlier page and none before it on its page does.
pub proof fn law_first_tag(search: TagSearch, pages: Seq<(Refs, Seq<bool>)>, k: int)
    requires
        0 <= k < pages.len(),
        forall|j: int|
            0 <= j < pages.len() ==> (#[trigger] pages[j]).1.len() == pages[j].0.tags().len(),
        forall|j: int| 0 <= j < k ==> goes_past_tags(#[trigger] pages[j]),
        !goes_past_tags(pages[k]),
    ensures
        search_tags(search, pages) matches Ok(Step::Done(result)) ==> {
            &&& exists|i: int|
                {
                    &&& 0 <= i < pages[k].0.tags().len()
                    &&& pages[k].1[i]
                    &&& #[trigger] pages[k].0.tags()[i] matches Some(tag)
                    &&& tag.target matches Some(target)
                    &&& target.commit_oid() matches Some(rev)
                    &&& result == search.session.resolved(Lock { rev, tag: Some(tag.name) })
                    &&& forall|m: int|
                        0 <= m < i ==> !is_wanted_tag(
                            #[trigger] pages[k].0.tags()[m],
                            pages[k].1[m],
                        )
                }
            &&& forall|j: int, m: int|
                0 <= j < k && 0 <= m < pages[j].0.tags().len() ==> !is_wanted_tag(
                    #[trigger] pages[j].0.tags()[m],
                    pages[j].1[m],
                )
        },
{
    law_tag_search(search, pages, k);
    if search_tags(search, pages) matches Ok(Step::Done(_)) {
        let tags = pages[k].0.tags();
        let pairs = tags.zip_with(pages[k].1);
        lemma_first_index(pairs, wanted_tag());
        let i = pages[k].0.first_wanted(pages[k].1)->0;
        assert(wanted_tag()(pairs[i]));
        assert(pairs[i] == (tags[i], pages[k].1[i]));
        assert forall|m: int| 0 <= m < i implies !is_wanted_tag(
            #[trigger] tags[m],
            pages[k].1[m],
        ) by {
            assert(pairs[m] == (tags[m], pages[k].1[m]));
            assert(!wanted_tag()(pairs[m]));
        }
        assert forall|j: int, m: int|
            0 <= j < k && 0 <= m < pages[j].0.tags().len() implies !is_wanted_tag(
            #[trigger] pages[j].0.tags()[m],
            pages[j].1[m],
        ) by {
            assert(goes_past_tags(pages[j]));
            let earlier = pages[j].0.tags().zip_with(pages[j].1);
            lemma_first_index(earlier, wanted_tag());
            assert(earlier[m] == (pages[j].0.tags()[m], pages[j].1[m]));
            assert(!wanted_tag()(earlier[m]));
        }
    }
}

/// A tag that matches and leads to a commit ends the search on whichever page it stands, the last
/// page as well as any other; so a search that finds no tag has met none.
pub proof fn law_a_match_is_found(search: TagSearch, page: Refs, matched: Seq<bool>, i: int)
    requires
        matched.len() == page.tags().len(),
        0 <= i < matched.len(),
        is_wanted_tag(page.tags()[i], matched[i]),
    ensures
        search.page_outcome(page, matched) matches Ok(Step::Done(_)),
{
    let pairs = page.tags().zip_with(matched);
    lemma_first_index(pairs, wanted_tag());
    assert(pairs[i] == (page.tags()[i], matched[i]));
    assert(wanted_tag()(pairs[i]));
}

} // verus!
