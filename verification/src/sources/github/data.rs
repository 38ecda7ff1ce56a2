//! What GitHub's answers hold of a repository.

use vstd::prelude::*;

use crate::search::first_index;

verus! {

/// What kind of object a ref points to.
#[derive(Debug, PartialEq, Eq)]
pub enum TargetKind {
    /// An annotated tag, and the object that it tags.
    Tag {
        /// The id of the object that the tag is on.
        target_oid: String,
    },
    /// A commit.
    Commit,
    /// Anything else.
    Other,
}

/// The object that a ref points to.
#[derive(Debug, PartialEq, Eq)]
pub struct RefTarget {
    /// The id of the object.
    pub oid: String,
    /// What kind of object it is.
    pub on: TargetKind,
}

impl RefTarget {
    /// The id of the commit that the ref leads to.
    pub open spec fn commit_oid(self) -> Option<String> {
        match self.on {
            TargetKind::Tag { target_oid } => Some(target_oid),
            TargetKind::Commit => Some(self.oid),
            TargetKind::Other => None,
        }
    }

    /// The id of the commit that the ref leads to: of the one that it points to, or of the one
    /// that the annotated tag is on that it points to.
    pub fn oid(&self) -> (oid: Option<&String>)
        ensures
            match oid {
                Some(oid) => self.commit_oid() == Some(*oid),
                None => self.commit_oid() is None,
            },
    {
        match &self.on {
            TargetKind::Tag { target_oid } => Some(target_oid),
            TargetKind::Commit => Some(&self.oid),
            TargetKind::Other => None,
        }
    }
}

/// A ref.
#[derive(Debug)]
pub struct Ref {
    /// What the ref points to.
    pub target: Option<RefTarget>,
}

/// The repository in an answer about one ref.
#[derive(Debug)]
pub struct RefInfoRepository {
    /// The ref, where the repository has it.
    pub ref_: Option<Ref>,
}

/// An answer about one ref.
#[derive(Debug)]
pub struct RefInfoData {
    /// The repository, where there is one.
    pub repository: Option<RefInfoRepository>,
}

/// Where a page of a listing stands.
#[derive(Debug)]
pub struct PageInfo {
    /// Whether another page follows.
    pub has_next_page: bool,
    /// What to ask for to get what follows this page.
    pub end_cursor: Option<String>,
}

/// A tag in a listing.
#[derive(Debug)]
pub struct TagNode {
    /// The name of the tag.
    pub name: String,
    /// What the tag points to.
    pub target: Option<RefTarget>,
}

/// A page of tags.
#[derive(Debug)]
pub struct Refs {
    /// Where the page stands.
    pub page_info: PageInfo,
    /// The tags.
    pub nodes: Option<Vec<Option<TagNode>>>,
}

/// Whether a tag, given whether its name matched, is one to lock: it matched, and leads to a
/// commit.
pub open spec fn is_wanted_tag(node: Option<TagNode>, matched: bool) -> bool {
    &&& matched
    &&& node matches Some(tag)
    &&& tag.target matches Some(target)
    &&& target.commit_oid() is Some
}

/// The tags to lock, each with whether its name matched.
pub open spec fn wanted_tag() -> spec_fn((Option<TagNode>, bool)) -> bool {
    |pair: (Option<TagNode>, bool)| is_wanted_tag(pair.0, pair.1)
}

impl Refs {
    /// The tags of the page, with gaps.
    pub open spec fn tags(self) -> Seq<Option<TagNode>> {
        match self.nodes {
            Some(nodes) => nodes@,
            None => Seq::empty(),
        }
    }

    /// The place of the first tag to lock, given which of the names matched.
    pub open spec fn first_wanted(self, matched: Seq<bool>) -> Option<int> {
        first_index(self.tags().zip_with(matched), wanted_tag())
    }
}

/// The repository in an answer that lists tags.
#[derive(Debug)]
pub struct ListTagsRepository {
    /// The page.
    pub refs: Option<Refs>,
}

/// An answer that lists tags.
#[derive(Debug)]
pub struct ListTagsData {
    /// The repository, where there is one.
    pub repository: Option<ListTagsRepository>,
}

impl ListTagsData {
    /// The tags of the page, with gaps; none where there is no page.
    pub open spec fn tags(self) -> Seq<Option<TagNode>> {
        match self.repository {
            Some(repository) => match repository.refs {
                Some(refs) => refs.tags(),
                None => Seq::empty(),
            },
            None => Seq::empty(),
        }
    }
}

/// The tag of a release.
#[derive(Debug)]
pub struct ReleaseTag {
    /// The name of the tag.
    pub name: String,
}

/// A commit.
#[derive(Debug)]
pub struct Commit {
    /// The id of the commit.
    pub oid: String,
}

/// A release in a listing.
#[derive(Debug)]
pub struct Release {
    /// Whether it comes before a proper release.
    pub is_prerelease: bool,
    /// The tag that was released.
    pub tag: Option<ReleaseTag>,
    /// The commit that the tag is on.
    pub tag_commit: Option<Commit>,
}

/// A page of releases.
#[derive(Debug)]
pub struct Releases {
    /// Where the page stands.
    pub page_info: PageInfo,
    /// The releases.
    pub nodes: Option<Vec<Option<Release>>>,
}

/// Whether a release is one to lock.
pub open spec fn is_wanted_release(node: Option<Release>, pre_release: bool) -> bool {
    node matches Some(release) && (pre_release || !release.is_prerelease)
}

/// The releases to lock.
pub open spec fn wanted_release(pre_release: bool) -> spec_fn(Option<Release>) -> bool {
    |node: Option<Release>| is_wanted_release(node, pre_release)
}

impl Releases {
    /// The place of the first release to lock.
    pub open spec fn first_wanted(self, pre_release: bool) -> Option<int> {
        match self.nodes {
            Some(nodes) => first_index(nodes@, wanted_release(pre_release)),
            None => None,
        }
    }
}

/// The repository in an answer that lists releases.
#[derive(Debug)]
pub struct ListReleasesRepository {
    /// The page.
    pub releases: Releases,
}

/// An answer that lists releases.
#[derive(Debug)]
pub struct ListReleasesData {
    /// The repository, where there is one.
    pub repository: Option<ListReleasesRepository>,
}

/// The default branch of a repository.
#[derive(Debug)]
pub struct DefaultBranchRef {
    /// The name of the branch.
    pub name: String,
    /// The commit at its tip.
    pub target: Option<Commit>,
}

/// The repository in an answer about the default branch.
#[derive(Debug)]
pub struct DefaultBranchRepository {
    /// The branch, where the repository has one.
    pub default_branch_ref: Option<DefaultBranchRef>,
}

/// An answer about the default branch.
#[derive(Debug)]
pub struct DefaultBranchData {
    /// The repository, where there is one.
    pub repository: Option<DefaultBranchRepository>,
}

} // verus!
