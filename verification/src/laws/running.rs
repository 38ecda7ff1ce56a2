//! Locking one source from start to end.

use vstd::prelude::*;

use crate::address::url_href;
use crate::address::Url;
use crate::laws::sources::is_read_from;
use crate::lock_file::default_unpack;
use crate::lock_file::FullLock;
use crate::lock_file::Lock;
use crate::lock_file::Spec;
use crate::run::checked_run_one;
use crate::run::run_begins_with;
use crate::run::run_one;
use crate::run::Job;
use crate::run::Next;
use crate::run::PendingPrefetch;
use crate::run::PendingRequest;
use crate::run::Reply;
use crate::sources::AnyLock;
use crate::sources::Lock as _;
use crate::sources::LockResult;
use crate::text::lemma_cut;
use crate::text::lemma_stripped;
use crate::timestamp::date_time_text;
use crate::timestamp::rfc2822_date_time;
use crate::timestamp::Timestamp;

verus! {

/// Whether `current` is the lock that a result leaves.
pub open spec fn leaves<T>(result: LockResult<T>, current: T) -> bool {
    ||| result == LockResult::Unchanged(current)
    ||| result matches LockResult::Changed(_, lock) && lock == current
}

/// Whether a result is one of a run: it is changed exactly where the revision is, leaves `new`
/// with the revision, and replaces what was in the lock file where both its parts are known.
pub open spec fn is_result(
    old: Option<Lock>,
    revision: LockResult<AnyLock>,
    new: Lock,
    result: LockResult<FullLock>,
) -> bool {
    match (revision, result) {
        (LockResult::Unchanged(inner), LockResult::Unchanged(full)) => {
            full.lock == new && full.inner == inner
        },
        (LockResult::Changed(replaced, inner), LockResult::Changed(before, full)) => {
            &&& full.lock == new
            &&& full.inner == inner
            &&& before is Some <==> replaced is Some && old is Some
            &&& before matches Some(before) ==> before.lock == old->0 && before.inner
                == replaced->0
        },
        _ => false,
    }
}

/// Whether `next` is what a source calls for first: content that may change is asked about;
/// content that never changes keeps its hash where there is one for the same way of unpacking and
/// the revision is unchanged, and is fetched otherwise, with no tag and no time.
pub open spec fn starts(
    unpack: bool,
    old: Option<Lock>,
    revision: LockResult<AnyLock>,
    current: AnyLock,
    next: Next,
    url: Url,
) -> bool {
    let job = Job { unpack, url, old_lock: old, lock: revision };
    match (current, old, revision, next) {
        (AnyLock::Http(_), _, _, Next::Request(request)) => request.job == job,
        (
            AnyLock::GitHub(_),
            Some(lock),
            LockResult::Unchanged(_),
            Next::Done(result),
        ) if lock.unpack == unpack => is_result(
            old,
            revision,
            Lock { hash: lock.hash, etag: None, unpack, last_modified: None },
            result,
        ),
        (AnyLock::GitHub(_), _, _, Next::Prefetch(fetch)) => {
            &&& !(old matches Some(lock) && lock.unpack == unpack && revision is Unchanged)
            &&& fetch.job == job
            &&& fetch.etag is None
            &&& fetch.last_modified is None
        },
        _ => false,
    }
}

/// What is done first depends on the kind of source and on what is in the files, as `starts` says.
pub proof fn law_start(job: Job, current: AnyLock, next: Next)
    requires
        call_ensures(Job::start, (job,), next),
        leaves(job.lock, current),
    ensures
        starts(job.unpack, job.old_lock, job.lock, current, next, job.url),
{
}

/// A run over an ordinary address asks about the very address that is in the spec.
pub proof fn law_run_http(
    spec: Spec,
    old: Option<Lock>,
    revision: LockResult<AnyLock>,
    current: AnyLock,
    next: Next,
    checked: Option<Next>,
)
    requires
        leaves(revision, current),
        current is Http,
        call_ensures(run_one, (&spec, old, revision), next),
        call_ensures(checked_run_one, (&spec, old, revision), checked),
    ensures
        exists|url: Url|
            {
                &&& is_read_from(url, spec.spec@)
                &&& #[trigger] starts(spec.unpack, old, revision, current, next, url)
            },
        match checked {
            Some(next) => exists|url: Url|
                {
                    &&& is_read_from(url, spec.spec@)
                    &&& #[trigger] starts(spec.unpack, old, revision, current, next, url)
                },
            None => url_href(spec.spec@) is None,
        },
{
    lemma_begins(spec, old, revision, current, spec.spec@, next);
    if let Some(next) = checked {
        lemma_begins(spec, old, revision, current, spec.spec@, next);
    }
}

/// A run over a commit on GitHub fetches, where it fetches anything, the archive of that commit in
/// the repository that the spec names.
pub proof fn law_run_github(
    owner: Seq<char>,
    repo: Seq<char>,
    spec: Spec,
    old: Option<Lock>,
    revision: LockResult<AnyLock>,
    current: AnyLock,
    next: Next,
    checked: Option<Next>,
)
    requires
        !owner.contains('/'),
        spec.spec@ == "github:"@ + (owner + seq!['/'] + repo),
        leaves(revision, current),
        current is GitHub,
        call_ensures(run_one, (&spec, old, revision), next),
        call_ensures(checked_run_one, (&spec, old, revision), checked),
    ensures
        ({
            let address = "https://github.com/"@ + owner + "/"@ + repo + "/archive/"@
                + current->GitHub_0.rev@ + ".tar.gz"@;
            &&& exists|url: Url|
                {
                    &&& is_read_from(url, address)
                    &&& #[trigger] starts(spec.unpack, old, revision, current, next, url)
                }
            &&& match checked {
                Some(next) => exists|url: Url|
                    {
                        &&& is_read_from(url, address)
                        &&& #[trigger] starts(spec.unpack, old, revision, current, next, url)
                    },
                None => url_href(address) is None,
            }
        }),
{
    let address = "https://github.com/"@ + owner + "/"@ + repo + "/archive/"@
        + current->GitHub_0.rev@ + ".tar.gz"@;
    lemma_stripped("github:"@, owner + seq!['/'] + repo);
    lemma_cut(owner, '/', repo);
    assert(current.url_text(spec.spec@) == Some(address));
    lemma_begins(spec, old, revision, current, address, next);
    if let Some(next) = checked {
        lemma_begins(spec, old, revision, current, address, next);
    }
}

/// What a run begins with is what the source calls for first, at its address.
proof fn lemma_begins(
    spec: Spec,
    old: Option<Lock>,
    revision: LockResult<AnyLock>,
    current: AnyLock,
    address: Seq<char>,
    next: Next,
)
    requires
        leaves(revision, current),
        current.url_text(spec.spec@) == Some(address),
        run_begins_with(spec, old, revision, next),
    ensures
        exists|url: Url|
            {
                &&& is_read_from(url, address)
                &&& #[trigger] starts(spec.unpack, old, revision, current, next, url)
            },
{
    let url = choose|url: Url|
        {
            &&& url.read_from(revision.current_lock().url_text(spec.spec@)->0)
            &&& next == #[trigger] (Job {
                unpack: spec.unpack,
                url,
                old_lock: old,
                lock: revision,
            }).first()
        };
    assert(starts(spec.unpack, old, revision, current, next, url));
    assert(is_read_from(url, address)) by {
        if let Some(segments) = url.path_segments {
            let named = crate::address::url_path_segments(address)->0;
            assert forall|i: int| 0 <= i < named.len() implies (#[trigger] segments@[i])@
                == named[i] by {
                assert(named[i] == segments@.map_values(|s: String| s@)[i]);
            }
        }
    }
}

/// The tag that is sent is the one in the lock file.
pub proof fn law_if_none_match(request: PendingRequest, etag: Option<&String>)
    requires
        call_ensures(PendingRequest::if_none_match, (&request,), etag),
    ensures
        match etag {
            Some(etag) => request.job.old_lock matches Some(lock) && lock.etag == Some(*etag),
            None => request.job.old_lock matches Some(lock) ==> lock.etag is None,
        },
{
}

/// Whether the server says that its content is the one that is in the lock file: it says so
/// outright, and gave a tag before, or gives the very tag again.
pub open spec fn says_same(lock: Lock, status: u16, etag: Option<String>) -> bool {
    if status == 304 {
        lock.etag is Some
    } else {
        match (etag, lock.etag) {
            (Some(now), Some(then)) => now@ == then@,
            _ => false,
        }
    }
}

/// Whether `tag` is the one to write down: where the server says outright that its content has not
/// changed the one in the lock file, and otherwise the one that it gives.
pub open spec fn is_new_tag(
    old: Option<Lock>,
    status: u16,
    etag: Option<String>,
    tag: Option<String>,
) -> bool {
    if status == 304 {
        match old {
            Some(lock) => tag == lock.etag,
            None => tag is None,
        }
    } else {
        tag == etag
    }
}

/// Whether `next` is what a reply calls for. The hash is kept, unchanged, exactly where there is one
/// for the same way of unpacking, the revision is unchanged and the server says that the content
/// is the same. Otherwise the content is fetched from the same address, and is a change: from
/// itself, where the revision is unchanged.
pub open spec fn follows_from_reply(
    job: Job,
    status: u16,
    etag: Option<String>,
    modified: Option<Timestamp>,
    next: Next,
) -> bool {
    let keeps = job.old_lock matches Some(lock) && lock.unpack == job.unpack && job.lock
        is Unchanged && says_same(lock, status, etag);
    match next {
        Next::Request(_) => false,
        Next::Done(result) => {
            &&& keeps
            &&& result matches LockResult::Unchanged(full)
            &&& job.lock == LockResult::Unchanged(full.inner)
            &&& full.lock.hash == job.old_lock->0.hash
            &&& full.lock.unpack == job.unpack
            &&& is_new_tag(job.old_lock, status, etag, full.lock.etag)
            &&& full.lock.last_modified == modified
        },
        Next::Prefetch(fetch) => {
            &&& !keeps
            &&& is_new_tag(job.old_lock, status, etag, fetch.etag)
            &&& fetch.last_modified == modified
            &&& fetch.job.url == job.url
            &&& fetch.job.unpack == job.unpack
            &&& fetch.job.old_lock == job.old_lock
            &&& match job.lock {
                LockResult::Unchanged(inner) => fetch.job.lock == LockResult::Changed(
                    Some(inner),
                    inner,
                ),
                LockResult::Changed(_, _) => fetch.job.lock == job.lock,
            }
        },
    }
}

/// What a reply calls for follows from its status and its tag; its time is only written down.
pub proof fn law_replied(
    request: PendingRequest,
    status: u16,
    etag: Option<String>,
    modified: Option<Timestamp>,
    next: Next,
)
    requires
        call_ensures(PendingRequest::replied, (request, status, etag, modified), next),
    ensures
        follows_from_reply(request.job, status, etag, modified, next),
{
}

/// The time in a reply is the one that the `chrono` crate reads in its header; where it reads none
/// there is none.
pub proof fn law_reply(request: PendingRequest, reply: Reply, next: Next)
    requires
        call_ensures(PendingRequest::reply, (request, reply), next),
    ensures
        exists|modified: Option<Timestamp>|
            {
                &&& #[trigger] follows_from_reply(
                    request.job,
                    reply.status,
                    reply.etag,
                    modified,
                    next,
                )
                &&& match modified {
                    Some(modified) => reply.last_modified matches Some(header)
                        && rfc2822_date_time(header@) == Some(modified.parts()),
                    None => reply.last_modified matches Some(header) ==> rfc2822_date_time(
                        header@,
                    ) is None,
                }
            },
{
    let modified = choose|modified: Option<Timestamp>|
        {
            &&& crate::run::modified_of(crate::text::text_of(reply.last_modified), modified)
            &&& next == #[trigger] request.after(reply.status, reply.etag, modified)
        };
    assert(follows_from_reply(request.job, reply.status, reply.etag, modified, next));
}

/// What was fetched is locked with its own hash, and with the tag and the time of the reply.
pub proof fn law_prefetched(
    fetch: PendingPrefetch,
    hash: ssri2::Integrity,
    result: LockResult<FullLock>,
)
    requires
        call_ensures(PendingPrefetch::prefetched, (fetch, hash), result),
    ensures
        is_result(
            fetch.job.old_lock,
            fetch.job.lock,
            Lock {
                hash,
                etag: fetch.etag,
                unpack: fetch.job.unpack,
                last_modified: fetch.last_modified,
            },
            result,
        ),
{
}

/// Content is unpacked unless the spec file says otherwise.
pub proof fn law_default_unpack(unpack: bool)
    requires
        call_ensures(default_unpack, (), unpack),
    ensures
        unpack,
{
}

/// Whether numbers stand for a point in time: seconds within the years that can be counted,
/// nanoseconds within a second or, at the end of a minute, within a leap second, and an offset of
/// less than a day.
pub proof fn law_new_timestamp(
    seconds: i64,
    nanoseconds: u32,
    offset: i32,
    timestamp: Option<Timestamp>,
)
    requires
        call_ensures(Timestamp::new, (seconds, nanoseconds, offset), timestamp),
    ensures
        timestamp is Some <==> {
            &&& -8334601228800 <= seconds <= 8210266876799
            &&& nanoseconds <= 999_999_999 || (nanoseconds <= 1_999_999_999 && (seconds as int + 1)
                % 60 == 0)
            &&& -86_399 <= offset <= 86_399
        },
        timestamp matches Some(timestamp) ==> timestamp.parts() == (seconds, nanoseconds, offset),
{
}

/// A point in time gives back its numbers, and is shown as the `chrono` crate shows them.
pub proof fn law_timestamp(
    timestamp: Timestamp,
    seconds: i64,
    nanoseconds: u32,
    offset: i32,
    text: String,
)
    requires
        call_ensures(Timestamp::seconds, (&timestamp,), seconds),
        call_ensures(Timestamp::nanoseconds, (&timestamp,), nanoseconds),
        call_ensures(Timestamp::offset, (&timestamp,), offset),
        call_ensures(Timestamp::show, (&timestamp,), text),
    ensures
        timestamp.parts() == (seconds, nanoseconds, offset),
        text@ == date_time_text(seconds, nanoseconds, offset),
{
}

/// A header is read as the `chrono` crate reads it.
pub proof fn law_from_rfc2822(text: &str, timestamp: Option<Timestamp>)
    requires
        call_ensures(Timestamp::from_rfc2822, (text,), timestamp),
    ensures
        match timestamp {
            Some(timestamp) => rfc2822_date_time(text@) == Some(timestamp.parts()),
            None => rfc2822_date_time(text@) is None,
        },
{
}

} // verus!
