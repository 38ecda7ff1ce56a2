//! Why a source cannot be locked.

use vstd::prelude::*;

use super::github::data::RefTarget;
use super::github::pattern::PatternError;
use super::graphql::ResponseError;

verus! {

/// Why a source cannot be locked.
#[derive(Debug, PartialEq, Eq)]
pub enum LockError {
    /// The spec has no scheme.
    InvalidSpec,
    /// No kind of source has the scheme of the spec.
    UnknownScheme,
    /// What the spec file says of the revision is not understood.
    InvalidRevisionSpec,
    /// What the lock file says of the source is not understood.
    InvalidLock,
    /// The server's answer is of no use.
    Response(ResponseError),
    /// The server does not know the repository.
    NoRepository,
    /// The ref points nowhere.
    NoTarget,
    /// The tag is on something that is no commit.
    NotATag(RefTarget),
    /// There is no tag of the name, and it is no pattern either.
    InvalidPattern(PatternError),
    /// The server does not list the tags.
    NoRefs,
    /// No tag was found that matches the pattern.
    NoMatchingTag,
    /// There is no branch of the name.
    BranchNotFound,
    /// The branch is on something that is no commit.
    NoTargetCommit(RefTarget),
    /// The repository has no default branch.
    NoDefaultBranch,
    /// The repository has no release of the kind.
    NoRelease,
    /// The release has no tag.
    ReleaseWithoutTag,
    /// The tag of the release is on nothing.
    TagWithoutCommit,
}

impl LockError {
    /// The message that tells of the error. Where an object is at fault, the message ends before
    /// the description of the object.
    pub open spec fn text(self) -> Seq<char> {
        match self {
            LockError::InvalidSpec => "invalid spec"@,
            LockError::UnknownScheme => "unknown scheme"@,
            LockError::InvalidRevisionSpec => "invalid rev spec"@,
            LockError::InvalidLock => "invalid lock"@,
            LockError::Response(ResponseError::Errors(text)) => text@,
            LockError::Response(ResponseError::NoData) => "no data or errors"@,
            LockError::NoRepository => "no repository"@,
            LockError::NoTarget => "no target"@,
            LockError::NotATag(_) => "not a tag "@,
            LockError::InvalidPattern(_) => "invalid glob pattern"@,
            LockError::NoRefs => "no refs"@,
            LockError::NoMatchingTag => "no matching tag found"@,
            LockError::BranchNotFound => "branch not found"@,
            LockError::NoTargetCommit(_) => "no target commit: "@,
            LockError::NoDefaultBranch => "no default branch"@,
            LockError::NoRelease => "no release found"@,
            LockError::ReleaseWithoutTag => "release is not a tag??"@,
            LockError::TagWithoutCommit => "tag has no commit??"@,
        }
    }

    /// The message that tells of the error. Where an object is at fault, the message ends before
    /// the description of the object.
    pub fn message(&self) -> (message: String)
        ensures
            message@ == self.text(),
    {
        let message: &str = match self {
            LockError::InvalidSpec => "invalid spec",
            LockError::UnknownScheme => "unknown scheme",
            LockError::InvalidRevisionSpec => "invalid rev spec",
            LockError::InvalidLock => "invalid lock",
            LockError::Response(ResponseError::Errors(text)) => text.as_str(),
            LockError::Response(ResponseError::NoData) => "no data or errors",
            LockError::NoRepository => "no repository",
            LockError::NoTarget => "no target",
            LockError::NotATag(_) => "not a tag ",
            LockError::InvalidPattern(_) => "invalid glob pattern",
            LockError::NoRefs => "no refs",
            LockError::NoMatchingTag => "no matching tag found",
            LockError::BranchNotFound => "branch not found",
            LockError::NoTargetCommit(_) => "no target commit: ",
            LockError::NoDefaultBranch => "no default branch",
            LockError::NoRelease => "no release found",
            LockError::ReleaseWithoutTag => "release is not a tag??",
            LockError::TagWithoutCommit => "tag has no commit??",
        };
        message.to_owned()
    }
}

} // verus!
