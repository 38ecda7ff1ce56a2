//! The questions that locking a revision takes, and what follows from their answers.

use vstd::prelude::*;
use vstd::string::*;

use super::data::wanted_release;
use super::data::wanted_tag;
use super::data::DefaultBranchData;
use super::data::ListReleasesData;
use super::data::ListTagsData;
use super::data::RefInfoData;
use super::data::Refs;
use super::data::Releases;
use super::data::TagNode;
use super::pattern::check_of;
use super::pattern::check_pattern;
use super::pattern::match_of;
use super::pattern::matches_pattern;
use super::pattern::PatternError;
use super::Lock;
use crate::search::lemma_is_first;
use crate::search::lemma_no_first;
use crate::sources::graphql::Response;
use crate::sources::LockError;
use crate::sources::LockResult;
use crate::text::copied;

verus! {

/// A repository whose revision is being locked.
#[derive(Debug)]
pub struct Session {
    /// Who owns the repository.
    pub owner: String,
    /// The name of the repository.
    pub repo: String,
    /// The lock that was there before.
    pub lock: Option<Lock>,
}

impl Session {
    /// The result with the lock that was found. The lock has changed unless there was one with the
    /// same commit.
    pub open spec fn resolved(self, found: Lock) -> LockResult<Lock> {
        if self.lock matches Some(lock) && lock.rev@ == found.rev@ {
            LockResult::Unchanged(found)
        } else {
            LockResult::Changed(self.lock, found)
        }
    }

    /// The result with the lock that was found.
    pub fn resolve(self, found: Lock) -> (result: LockResult<Lock>)
        ensures
            result == self.resolved(found),
    {
        let changed: bool = match &self.lock {
            Some(lock) => lock.rev != found.rev,
            None => true,
        };
        if changed {
            LockResult::Changed(self.lock, found)
        } else {
            LockResult::Unchanged(found)
        }
    }
}

/// How far locking has come.
#[derive(Debug)]
pub enum Step {
    /// To ask for the tag of a name.
    TagLookup(TagLookup),
    /// To ask for a page of tags.
    TagSearch(TagSearch),
    /// To ask for a branch.
    BranchLookup(BranchLookup),
    /// To ask for the default branch.
    DefaultBranchLookup(DefaultBranchLookup),
    /// To ask for a page of releases.
    ReleaseSearch(ReleaseSearch),
    /// Nothing is left to ask.
    Done(LockResult<Lock>),
}

/// What to ask for a ref with.
#[derive(Debug, PartialEq, Eq)]
pub struct RefVariables {
    /// Who owns the repository.
    pub owner: String,
    /// The name of the repository.
    pub repo: String,
    /// The full name of the ref.
    pub q_tag: String,
}

/// What to ask for a page of a listing with.
#[derive(Debug, PartialEq, Eq)]
pub struct PageVariables {
    /// Who owns the repository.
    pub owner: String,
    /// The name of the repository.
    pub repo: String,
    /// The cursor of the page before.
    pub after: Option<String>,
}

/// What to ask for a repository with.
#[derive(Debug, PartialEq, Eq)]
pub struct RepositoryVariables {
    /// Who owns the repository.
    pub owner: String,
    /// The name of the repository.
    pub repo: String,
}

/// The step that looks for the tag of a name.
#[derive(Debug)]
pub struct TagLookup {
    /// The repository.
    pub session: Session,
    /// The name of the tag, which may turn out to be a pattern.
    pub tag: String,
}

impl TagLookup {
    /// What to ask with.
    pub fn variables(&self) -> (variables: RefVariables)
        ensures
            variables.owner == self.session.owner,
            variables.repo == self.session.repo,
            variables.q_tag@ == "refs/tags/"@ + self.tag@,
    {
        let mut q_tag: String = "refs/tags/".to_owned();
        q_tag.append(self.tag.as_str());
        RefVariables { owner: self.session.owner.clone(), repo: self.session.repo.clone(), q_tag }
    }

    /// What follows from the answer, given what came of checking the name as a pattern. The name
    /// is taken for a pattern only where there is no tag of the name.
    pub open spec fn outcome(
        self,
        data: RefInfoData,
        checked: Result<(), PatternError>,
    ) -> Result<Step, LockError> {
        match data.repository {
            None => Err(LockError::NoRepository),
            Some(repository) => match repository.ref_ {
                None => match checked {
                    Err(error) => Err(LockError::InvalidPattern(error)),
                    Ok(_) => Ok(
                        Step::TagSearch(
                            TagSearch { session: self.session, pattern: self.tag, cursor: None },
                        ),
                    ),
                },
                Some(found) => match found.target {
                    None => Err(LockError::NoTarget),
                    Some(target) => match target.commit_oid() {
                        None => Err(LockError::NotATag(target)),
                        Some(rev) => Ok(
                            Step::Done(self.session.resolved(Lock { rev, tag: Some(self.tag) })),
                        ),
                    },
                },
            },
        }
    }

    /// What follows from the data in the answer, given what came of checking the name as a
    /// pattern.
    pub fn resolve(self, data: RefInfoData, checked: Result<(), PatternError>) -> (next: Result<
        Step,
        LockError,
    >)
        ensures
            next == self.outcome(data, checked),
    {
        let repository = match data.repository {
            Some(repository) => repository,
            None => return Err(LockError::NoRepository),
        };
        match repository.ref_ {
            Some(found) => {
                let target = match found.target {
                    Some(target) => target,
                    None => return Err(LockError::NoTarget),
                };
                let oid = match target.oid() {
                    Some(oid) => Some(oid.clone()),
                    None => None,
                };
                match oid {
                    Some(rev) => Ok(
                        Step::Done(self.session.resolve(Lock { rev, tag: Some(self.tag) })),
                    ),
                    None => Err(LockError::NotATag(target)),
                }
            },
            None => match checked {
                Ok(_) => Ok(
                    Step::TagSearch(
                        TagSearch { session: self.session, pattern: self.tag, cursor: None },
                    ),
                ),
                Err(error) => Err(LockError::InvalidPattern(error)),
            },
        }
    }

    /// What follows from the answer.
    pub fn answer(self, response: Response<RefInfoData>) -> (next: Result<Step, LockError>)
        ensures
            match response.usable() {
                Some(data) => exists|checked: Result<(), PatternError>|
                    check_of(self.tag@, checked) && next == #[trigger] self.outcome(data, checked),
                None => next matches Err(LockError::Response(error)) && response.fails_with(error),
            },
    {
        match response.anyhow() {
            Ok(data) => {
                let checked = check_pattern(self.tag.as_str());
                self.resolve(data, checked)
            },
            Err(error) => Err(LockError::Response(error)),
        }
    }
}

/// The step that looks for a tag whose name matches a pattern.
#[derive(Debug)]
pub struct TagSearch {
    /// The repository.
    pub session: Session,
    /// The pattern.
    pub pattern: String,
    /// The cursor of the page before.
    pub cursor: Option<String>,
}

/// Whether each tag is matched as its name matches the pattern.
pub open spec fn matches_of(
    pattern: Seq<char>,
    tags: Seq<Option<TagNode>>,
    matched: Seq<bool>,
) -> bool {
    &&& matched.len() == tags.len()
    &&& forall|i: int|
        0 <= i < tags.len() ==> (#[trigger] tags[i] matches Some(tag) ==> match_of(
            pattern,
            tag.name@,
            matched[i],
        ))
}

/// Which tags of a page have a name that matches the pattern.
fn match_tags(pattern: &str, nodes: &Vec<Option<TagNode>>) -> (matched: Vec<bool>)
    ensures
        matches_of(pattern@, nodes@, matched@),
{
    let mut matched: Vec<bool> = Vec::new();
    while matched.len() < nodes.len()
        invariant
            matched.len() <= nodes.len(),
            matches_of(pattern@, nodes@.take(matched@.len() as int), matched@),
        decreases nodes.len() - matched.len(),
    {
        let ghost before = matched@;
        let ghost n = before.len() as int;
        let is_match: bool = match &nodes[matched.len()] {
            Some(tag) => matches_pattern(pattern, tag.name.as_str()),
            None => false,
        };
        matched.push(is_match);
        assert forall|i: int| 0 <= i < n + 1 implies (#[trigger] nodes@.take(
            n + 1,
        )[i] matches Some(tag) ==> match_of(pattern@, tag.name@, matched@[i])) by {
            if i < n {
                assert(nodes@.take(n)[i] == nodes@[i]);
                assert(matched@[i] == before[i]);
            }
        }
    }
    assert(nodes@.take(matched@.len() as int) =~= nodes@);
    matched
}

impl TagSearch {
    /// What to ask with.
    pub fn variables(&self) -> (variables: PageVariables)
        ensures
            variables == (PageVariables {
                owner: self.session.owner,
                repo: self.session.repo,
                after: self.cursor,
            }),
    {
        PageVariables {
            owner: self.session.owner.clone(),
            repo: self.session.repo.clone(),
            after: copied(&self.cursor),
        }
    }

    /// What follows from a page of tags, given which of their names match: the first that will do is
    /// locked, and where none will the next page is asked for.
    pub open spec fn page_outcome(self, page: Refs, matched: Seq<bool>) -> Result<
        Step,
        LockError,
    > {
        match page.first_wanted(matched) {
            Some(i) => {
                let tag = page.tags()[i]->0;
                let rev = tag.target->0.commit_oid()->0;
                Ok(Step::Done(self.session.resolved(Lock { rev, tag: Some(tag.name) })))
            },
            None => {
                if page.page_info.has_next_page {
                    Ok(
                        Step::TagSearch(
                            TagSearch {
                                session: self.session,
                                pattern: self.pattern,
                                cursor: page.page_info.end_cursor,
                            },
                        ),
                    )
                } else {
                    Err(LockError::NoMatchingTag)
                }
            },
        }
    }

    /// What follows from the answer, given which of the names in it match.
    pub open spec fn outcome(self, data: ListTagsData, matched: Seq<bool>) -> Result<
        Step,
        LockError,
    > {
        match data.repository {
            None => Err(LockError::NoRepository),
            Some(repository) => match repository.refs {
                None => Err(LockError::NoRefs),
                Some(page) => self.page_outcome(page, matched),
            },
        }
    }

    /// What follows from a page of tags, given which of their names match.
    fn resolve_page(self, page: Refs, matched: &Vec<bool>) -> (next: Result<Step, LockError>)
        requires
            matched@.len() == page.tags().len(),
        ensures
            next == self.page_outcome(page, matched@),
    {
        let ghost pairs = page.tags().zip_with(matched@);
        if let Some(nodes) = &page.nodes {
            let mut i: usize = 0;
            while i < nodes.len()
                invariant
                    i <= nodes.len(),
                    page.nodes == Some(*nodes),
                    matched@.len() == nodes@.len(),
                    pairs == nodes@.zip_with(matched@),
                    forall|j: int| 0 <= j < i ==> !wanted_tag()(#[trigger] pairs[j]),
                decreases nodes.len() - i,
            {
                assert(pairs[i as int] == (nodes@[i as int], matched@[i as int]));
                if matched[i] {
                    if let Some(tag) = &nodes[i] {
                        if let Some(target) = &tag.target {
                            if let Some(oid) = target.oid() {
                                proof {
                                    assert(wanted_tag()(pairs[i as int]));
                                    lemma_is_first(pairs, wanted_tag(), i as int);
                                }
                                let found = Lock {
                                    rev: oid.clone(),
                                    tag: Some(tag.name.clone()),
                                };
                                return Ok(Step::Done(self.session.resolve(found)));
                            }
                        }
                    }
                }
                i += 1;
            }
        }
        proof {
            lemma_no_first(pairs, wanted_tag());
        }
        if page.page_info.has_next_page {
            Ok(
                Step::TagSearch(
                    TagSearch {
                        session: self.session,
                        pattern: self.pattern,
                        cursor: page.page_info.end_cursor,
                    },
                ),
            )
        } else {
            Err(LockError::NoMatchingTag)
        }
    }

    /// What follows from the data in the answer, given which of the names in it match.
    pub fn resolve(self, data: ListTagsData, matched: &Vec<bool>) -> (next: Result<
        Step,
        LockError,
    >)
        requires
            matched@.len() == data.tags().len(),
        ensures
            next == self.outcome(data, matched@),
    {
        match data.repository {
            Some(repository) => match repository.refs {
                Some(page) => self.resolve_page(page, matched),
                None => Err(LockError::NoRefs),
            },
            None => Err(LockError::NoRepository),
        }
    }

    /// What follows from the answer.
    pub fn answer(self, response: Response<ListTagsData>) -> (next: Result<Step, LockError>)
        ensures
            match response.usable() {
                Some(data) => exists|matched: Seq<bool>|
                    matches_of(self.pattern@, data.tags(), matched) && next
                        == #[trigger] self.outcome(data, matched),
                None => next matches Err(LockError::Response(error)) && response.fails_with(error),
            },
    {
        match response.anyhow() {
            Ok(data) => {
                let mut matched: Vec<bool> = Vec::new();
                if let Some(repository) = &data.repository {
                    if let Some(page) = &repository.refs {
                        if let Some(nodes) = &page.nodes {
                            matched = match_tags(self.pattern.as_str(), nodes);
                        }
                    }
                }
                assert(matches_of(self.pattern@, data.tags(), matched@));
                self.resolve(data, &matched)
            },
            Err(error) => Err(LockError::Response(error)),
        }
    }
}

/// The step that looks for a branch.
#[derive(Debug)]
pub struct BranchLookup {
    /// The repository.
    pub session: Session,
    /// The name of the branch.
    pub branch: String,
}

impl BranchLookup {
    /// What to ask with.
    pub fn variables(&self) -> (variables: RefVariables)
        ensures
            variables.owner == self.session.owner,
            variables.repo == self.session.repo,
            variables.q_tag@ == "refs/heads/"@ + self.branch@,
    {
        let mut q_tag: String = "refs/heads/".to_owned();
        q_tag.append(self.branch.as_str());
        RefVariables { owner: self.session.owner.clone(), repo: self.session.repo.clone(), q_tag }
    }

    /// What follows from the answer.
    pub open spec fn outcome(self, data: RefInfoData) -> Result<LockResult<Lock>, LockError> {
        match data.repository {
            None => Err(LockError::NoRepository),
            Some(repository) => match repository.ref_ {
                None => Err(LockError::BranchNotFound),
                Some(found) => match found.target {
                    None => Err(LockError::NoTarget),
                    Some(target) => match target.commit_oid() {
                        None => Err(LockError::NoTargetCommit(target)),
                        Some(rev) => Ok(self.session.resolved(Lock { rev, tag: None })),
                    },
                },
            },
        }
    }

    /// What follows from the answer.
    pub fn answer(self, response: Response<RefInfoData>) -> (result: Result<
        LockResult<Lock>,
        LockError,
    >)
        ensures
            match response.usable() {
                Some(data) => result == self.outcome(data),
                None => result matches Err(LockError::Response(error)) && response.fails_with(
                    error,
                ),
            },
    {
        let data = match response.anyhow() {
            Ok(data) => data,
            Err(error) => return Err(LockError::Response(error)),
        };
        let repository = match data.repository {
            Some(repository) => repository,
            None => return Err(LockError::NoRepository),
        };
        let found = match repository.ref_ {
            Some(found) => found,
            None => return Err(LockError::BranchNotFound),
        };
        let target = match found.target {
            Some(target) => target,
            None => return Err(LockError::NoTarget),
        };
        let oid = match target.oid() {
            Some(oid) => Some(oid.clone()),
            None => None,
        };
        match oid {
            Some(rev) => Ok(self.session.resolve(Lock { rev, tag: None })),
            None => Err(LockError::NoTargetCommit(target)),
        }
    }
}

/// The step that looks for the default branch.
#[derive(Debug)]
pub struct DefaultBranchLookup {
    /// The repository.
    pub session: Session,
}

impl DefaultBranchLookup {
    /// What to ask with.
    pub fn variables(&self) -> (variables: RepositoryVariables)
        ensures
            variables == (RepositoryVariables {
                owner: self.session.owner,
                repo: self.session.repo,
            }),
    {
        RepositoryVariables { owner: self.session.owner.clone(), repo: self.session.repo.clone() }
    }

    /// What follows from the answer.
    pub open spec fn outcome(self, data: DefaultBranchData) -> Result<
        LockResult<Lock>,
        LockError,
    > {
        match data.repository {
            None => Err(LockError::NoRepository),
            Some(repository) => match repository.default_branch_ref {
                None => Err(LockError::NoDefaultBranch),
                Some(branch) => match branch.target {
                    None => Err(LockError::NoTarget),
                    Some(commit) => Ok(
                        self.session.resolved(Lock { rev: commit.oid, tag: None }),
                    ),
                },
            },
        }
    }

    /// What follows from the answer.
    pub fn answer(self, response: Response<DefaultBranchData>) -> (result: Result<
        LockResult<Lock>,
        LockError,
    >)
        ensures
            match response.usable() {
                Some(data) => result == self.outcome(data),
                None => result matches Err(LockError::Response(error)) && response.fails_with(
                    error,
                ),
            },
    {
        let data = match response.anyhow() {
            Ok(data) => data,
            Err(error) => return Err(LockError::Response(error)),
        };
        let repository = match data.repository {
            Some(repository) => repository,
            None => return Err(LockError::NoRepository),
        };
        let branch = match repository.default_branch_ref {
            Some(branch) => branch,
            None => return Err(LockError::NoDefaultBranch),
        };
        match branch.target {
            Some(commit) => Ok(self.session.resolve(Lock { rev: commit.oid, tag: None })),
            None => Err(LockError::NoTarget),
        }
    }
}

/// The step that looks for a release.
#[derive(Debug)]
pub struct ReleaseSearch {
    /// The repository.
    pub session: Session,
    /// Whether to include pre-release versions.
    pub pre_release: bool,
    /// The cursor of the page before.
    pub cursor: Option<String>,
}

impl ReleaseSearch {
    /// What to ask with.
    pub fn variables(&self) -> (variables: PageVariables)
        ensures
            variables == (PageVariables {
                owner: self.session.owner,
                repo: self.session.repo,
                after: self.cursor,
            }),
    {
        PageVariables {
            owner: self.session.owner.clone(),
            repo: self.session.repo.clone(),
            after: copied(&self.cursor),
        }
    }

    /// What follows from a page of releases: the first that will do is locked, and where none will
    /// the next page is asked for. A page without a list ends the search.
    pub open spec fn page_outcome(self, page: Releases) -> Result<Step, LockError> {
        match (page.nodes, page.first_wanted(self.pre_release)) {
            (Some(nodes), Some(i)) => {
                let release = nodes@[i]->0;
                match (release.tag, release.tag_commit) {
                    (None, _) => Err(LockError::ReleaseWithoutTag),
                    (Some(_), None) => Err(LockError::TagWithoutCommit),
                    (Some(tag), Some(commit)) => Ok(
                        Step::Done(
                            self.session.resolved(Lock { rev: commit.oid, tag: Some(tag.name) }),
                        ),
                    ),
                }
            },
            (Some(_), None) => {
                if page.page_info.has_next_page {
                    Ok(
                        Step::ReleaseSearch(
                            ReleaseSearch {
                                session: self.session,
                                pre_release: self.pre_release,
                                cursor: page.page_info.end_cursor,
                            },
                        ),
                    )
                } else {
                    Err(LockError::NoRelease)
                }
            },
            (None, _) => Err(LockError::NoRelease),
        }
    }

    /// What follows from the answer.
    pub open spec fn outcome(self, data: ListReleasesData) -> Result<Step, LockError> {
        match data.repository {
            None => Err(LockError::NoRepository),
            Some(repository) => self.page_outcome(repository.releases),
        }
    }

    /// What follows from a page of releases.
    fn resolve_page(self, page: Releases) -> (next: Result<Step, LockError>)
        ensures
            next == self.page_outcome(page),
    {
        let nodes = match page.nodes {
            Some(nodes) => nodes,
            None => return Err(LockError::NoRelease),
        };
        let ghost wanted = wanted_release(self.pre_release);
        let mut i: usize = 0;
        while i < nodes.len()
            invariant
                i <= nodes.len(),
                page.nodes == Some(nodes),
                wanted == wanted_release(self.pre_release),
                forall|j: int| 0 <= j < i ==> !wanted(#[trigger] nodes@[j]),
            decreases nodes.len() - i,
        {
            if let Some(release) = &nodes[i] {
                if self.pre_release || !release.is_prerelease {
                    proof {
                        assert(wanted(nodes@[i as int]));
                        lemma_is_first(nodes@, wanted, i as int);
                    }
                    return match (&release.tag, &release.tag_commit) {
                        (None, _) => Err(LockError::ReleaseWithoutTag),
                        (Some(_), None) => Err(LockError::TagWithoutCommit),
                        (Some(tag), Some(commit)) => {
                            let found = Lock {
                                rev: commit.oid.clone(),
                                tag: Some(tag.name.clone()),
                            };
                            Ok(Step::Done(self.session.resolve(found)))
                        },
                    };
                }
            }
            assert(!wanted(nodes@[i as int]));
            i += 1;
        }
        proof {
            lemma_no_first(nodes@, wanted);
        }
        if page.page_info.has_next_page {
            Ok(
                Step::ReleaseSearch(
                    ReleaseSearch {
                        session: self.session,
                        pre_release: self.pre_release,
                        cursor: page.page_info.end_cursor,
                    },
                ),
            )
        } else {
            Err(LockError::NoRelease)
        }
    }

    /// What follows from the answer.
    pub fn answer(self, response: Response<ListReleasesData>) -> (next: Result<Step, LockError>)
        ensures
            match response.usable() {
                Some(data) => next == self.outcome(data),
                None => next matches Err(LockError::Response(error)) && response.fails_with(error),
            },
    {
        match response.anyhow() {
            Ok(data) => match data.repository {
                Some(repository) => self.resolve_page(repository.releases),
                None => Err(LockError::NoRepository),
            },
            Err(error) => Err(LockError::Response(error)),
        }
    }
}

} // verus!
