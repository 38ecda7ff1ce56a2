//! Sources on GitHub.

use vstd::prelude::*;
use vstd::string::*;

use super::AnyLock;
use super::LockResult;
use super::Source;
use crate::text::copied;
use crate::text::cut;
use crate::text::split_once;
use crate::text::strip_prefix;
use crate::text::stripped;
use crate::timestamp::Timestamp;

use steps::BranchLookup;
use steps::DefaultBranchLookup;
use steps::ReleaseSearch;
use steps::Session;
use steps::Step;
use steps::TagLookup;

pub mod config;
pub mod data;
pub mod laws;
pub mod pattern;
pub mod steps;

verus! {

/// Which revision of a repository is meant.
#[derive(Debug, PartialEq, Eq)]
pub enum Spec {
    /// The commit of this hash.
    Rev {
        /// The hash of the commit.
        rev: String,
    },
    /// The tag of this name or, where there is none, the first one that matches it.
    Tag {
        /// The name of the tag, or a glob pattern.
        tag: String,
    },
    /// The commit at the tip of a branch.
    Branch {
        /// The name of the branch; the default branch where it is missing.
        branch: Option<String>,
    },
    /// The commit of the latest release.
    Release {
        /// Whether to include pre-release versions.
        pre_release: bool,
    },
}

impl Default for Spec {
    fn default() -> (spec: Spec)
        ensures
            spec == (Spec::Release { pre_release: false }),
    {
        Spec::Release { pre_release: false }
    }
}

/// The revision that is meant, given what the spec file says of it: a commit goes before a tag, a
/// tag before a branch, and a branch before a release. Where nothing is said the default branch is
/// meant.
pub fn revision_spec(
    rev: Option<String>,
    tag: Option<String>,
    branch: Option<String>,
    pre_release: Option<bool>,
) -> (spec: Spec)
    ensures
        spec == (match (rev, tag, branch, pre_release) {
            (Some(rev), _, _, _) => Spec::Rev { rev },
            (None, Some(tag), _, _) => Spec::Tag { tag },
            (None, None, Some(_), _) => Spec::Branch { branch },
            (None, None, None, Some(pre_release)) => Spec::Release { pre_release },
            (None, None, None, None) => Spec::Branch { branch: None },
        }),
{
    if let Some(rev) = rev {
        return Spec::Rev { rev };
    }
    if let Some(tag) = tag {
        return Spec::Tag { tag };
    }
    match (branch, pre_release) {
        (None, Some(pre_release)) => Spec::Release { pre_release },
        (branch, _) => Spec::Branch { branch },
    }
}

/// The lock of a source on GitHub.
#[derive(Debug, PartialEq, Eq)]
pub struct Lock {
    /// The hash of the commit.
    pub rev: String,
    /// The name of the tag that led to the commit.
    pub tag: Option<String>,
}

impl Clone for Lock {
    fn clone(&self) -> (copy: Lock)
        ensures
            copy == *self,
    {
        Lock { rev: self.rev.clone(), tag: copied(&self.tag) }
    }
}

/// The owner and the repository that a spec names.
pub open spec fn owner_and_repo(spec: Seq<char>) -> Option<(Seq<char>, Seq<char>)> {
    match stripped(spec, "github:"@) {
        Some(rest) => cut(rest, '/'),
        None => None,
    }
}

/// The owner and the repository that a spec names.
fn split_spec<'a>(spec: &'a str) -> (parts: Option<(&'a str, &'a str)>)
    ensures
        match parts {
            Some((owner, repo)) => owner_and_repo(spec@) == Some((owner@, repo@)),
            None => owner_and_repo(spec@) is None,
        },
{
    match strip_prefix(spec, "github:") {
        Some(rest) => split_once(rest, '/'),
        None => None,
    }
}

/// The address of the tarball of a commit.
pub open spec fn archive_url(owner: Seq<char>, repo: Seq<char>, rev: Seq<char>) -> Seq<char> {
    "https://github.com/"@ + owner + "/"@ + repo + "/archive/"@ + rev + ".tar.gz"@
}

/// The address of the tarball of a commit in the repository that a spec names.
pub open spec fn archive_for(spec: Seq<char>, rev: Seq<char>) -> Option<Seq<char>> {
    match owner_and_repo(spec) {
        Some((owner, repo)) => Some(archive_url(owner, repo, rev)),
        None => None,
    }
}

impl super::Lock for Lock {
    open spec fn url_text(&self, spec: Seq<char>) -> Option<Seq<char>> {
        archive_for(spec, self.rev@)
    }

    open spec fn always_same(&self) -> bool {
        true
    }

    open spec fn version_name(&self) -> Option<String> {
        self.tag
    }

    open spec fn modified(&self) -> Option<Timestamp> {
        None
    }

    open spec fn as_any(self) -> AnyLock {
        AnyLock::GitHub(self)
    }

    fn url_source(&self, spec: &str) -> (text: Option<String>) {
        match split_spec(spec) {
            Some((owner, repo)) => {
                let mut text: String = "https://github.com/".to_owned();
                text.append(owner);
                text.append("/");
                text.append(repo);
                text.append("/archive/");
                text.append(self.rev.as_str());
                text.append(".tar.gz");
                Some(text)
            },
            None => None,
        }
    }

    fn is_immutable(&self) -> (immutable: bool) {
        true
    }

    fn version(&self) -> (version: Option<String>) {
        copied(&self.tag)
    }

    fn last_modified(&self) -> (modified: Option<Timestamp>) {
        None
    }

    fn into_any(self) -> (any: AnyLock) {
        AnyLock::GitHub(self)
    }
}

/// The kind of source that is a repository on GitHub.
pub struct GitHub;

/// What locking a revision begins with. A commit is locked as it is; all else takes a question to
/// the server.
pub open spec fn first_step(session: Session, rev_spec: Spec) -> Step {
    match rev_spec {
        Spec::Rev { rev } => Step::Done(session.resolved(Lock { rev, tag: None })),
        Spec::Tag { tag } => Step::TagLookup(TagLookup { session, tag }),
        Spec::Branch { branch: Some(branch) } => Step::BranchLookup(
            BranchLookup { session, branch },
        ),
        Spec::Branch { branch: None } => Step::DefaultBranchLookup(DefaultBranchLookup { session }),
        Spec::Release { pre_release } => Step::ReleaseSearch(
            ReleaseSearch { session, pre_release, cursor: None },
        ),
    }
}

impl Source for GitHub {
    type Lock = Lock;

    type RevisionSpec = Spec;

    type Step = Step;

    open spec fn scheme_names() -> Seq<Seq<char>> {
        seq!["github"@]
    }

    open spec fn accepts(spec: Seq<char>) -> bool {
        owner_and_repo(spec) is Some
    }

    open spec fn begins_with(
        spec: Seq<char>,
        rev_spec: Spec,
        lock: Option<Lock>,
        step: Step,
    ) -> bool {
        exists|session: Session|
            {
                &&& owner_and_repo(spec) == Some((session.owner@, session.repo@))
                &&& session.lock == lock
                &&& step == #[trigger] first_step(session, rev_spec)
            }
    }

    fn schemes() -> (schemes: Vec<&'static str>) {
        let schemes: Vec<&'static str> = vec!["github"];
        assert(schemes@.map_values(|scheme: &'static str| scheme@) =~= Self::scheme_names());
        schemes
    }

    fn lock(spec: String, rev_spec: Spec, lock: Option<&Lock>) -> (step: Step) {
        let (owner, repo) = split_spec(spec.as_str()).unwrap();
        let lock = match lock {
            Some(lock) => Some(lock.clone()),
            None => None,
        };
        let session = Session { owner: owner.to_owned(), repo: repo.to_owned(), lock };
        let ghost started = session;
        let step = match rev_spec {
            Spec::Rev { rev } => Step::Done(session.resolve(Lock { rev, tag: None })),
            Spec::Tag { tag } => Step::TagLookup(TagLookup { session, tag }),
            Spec::Branch { branch: Some(branch) } => Step::BranchLookup(
                BranchLookup { session, branch },
            ),
            Spec::Branch { branch: None } => Step::DefaultBranchLookup(
                DefaultBranchLookup { session },
            ),
            Spec::Release { pre_release } => Step::ReleaseSearch(
                ReleaseSearch { session, pre_release, cursor: None },
            ),
        };
        assert(step == first_step(started, rev_spec));
        step
    }
}

impl GitHub {
    /// Begins to lock a source, which may have been locked before, where the spec names one in
    /// full.
    pub fn checked_lock(spec: String, rev_spec: Spec, lock: Option<&Lock>) -> (step: Option<Step>)
        ensures
            match step {
                Some(step) => {
                    &&& GitHub::accepts(spec@)
                    &&& GitHub::begins_with(
                        spec@,
                        rev_spec,
                        match lock {
                            Some(lock) => Some(*lock),
                            None => None,
                        },
                        step,
                    )
                },
                None => !GitHub::accepts(spec@),
            },
    {
        match split_spec(spec.as_str()) {
            Some(_) => Some(GitHub::lock(spec, rev_spec, lock)),
            None => None,
        }
    }
}

} // verus!
