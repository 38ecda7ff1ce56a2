//! Where sources come from, and what is locked of them.

use vstd::prelude::*;

use crate::address::url_href;
use crate::address::url_path_segments;
use crate::address::Url;
use crate::laws::texts::law_joined;
use crate::laws::texts::law_trimmed_end;
use crate::sources::checked_url;
use crate::sources::github;
use crate::sources::graphql::path_text;
use crate::sources::graphql::query_error_text;
use crate::sources::graphql::PathFragmentView;
use crate::sources::graphql::QueryError;
use crate::sources::graphql::QueryErrorView;
use crate::sources::graphql::Response;
use crate::sources::graphql::ResponseError;
use crate::sources::http;
use crate::sources::law_http_specs;
use crate::sources::lock;
use crate::sources::AnyLock;
use crate::sources::Lock;
use crate::sources::LockError;
use crate::sources::LockResult;
use crate::sources::Source;
use crate::sources::SourceKind;
use crate::text::lemma_cut;
use crate::text::lemma_cut_parts;
use crate::text::lemma_stripped;
use crate::text::signed_decimal;
use crate::text::trimmed_end;
use crate::timestamp::Timestamp;

verus! {

/// The kind of a source is told by what its spec starts with, up to the first colon.
pub proof fn law_kind(spec: &str, kind: Result<SourceKind, LockError>)
    requires
        call_ensures(lock, (spec,), kind),
    ensures
        kind == Ok::<SourceKind, LockError>(SourceKind::GitHub) <==> "github:"@.is_prefix_of(spec@),
        kind == Ok::<SourceKind, LockError>(SourceKind::Http) <==> {
            ||| "http:"@.is_prefix_of(spec@)
            ||| "https:"@.is_prefix_of(spec@)
        },
        kind == Err::<SourceKind, LockError>(LockError::InvalidSpec) <==> !spec@.contains(':'),
        kind is Err ==> kind->Err_0 is InvalidSpec || kind->Err_0 is UnknownScheme,
{
    github::laws::law_github_specs(spec@);
    law_http_specs(spec@);
}

/// The schemes are those in front of the colon.
pub proof fn law_schemes(github_schemes: Vec<&'static str>, http_schemes: Vec<&'static str>)
    requires
        call_ensures(<github::GitHub as Source>::schemes, (), github_schemes),
        call_ensures(<http::Http as Source>::schemes, (), http_schemes),
    ensures
        github_schemes@.len() == 1,
        github_schemes@[0]@ == "github"@,
        http_schemes@.len() == 2,
        http_schemes@[0]@ == "http"@,
        http_schemes@[1]@ == "https"@,
{
    let view = |scheme: &'static str| scheme@;
    let github_names = github_schemes@.map_values(view);
    let http_names = http_schemes@.map_values(view);
    assert(github_names == github::GitHub::scheme_names());
    assert(http_names == http::Http::scheme_names());
    assert(github_names.len() == 1 && http_names.len() == 2);
    assert(github_names[0] == github_schemes@[0]@);
    assert(http_names[0] == http_schemes@[0]@);
    assert(http_names[1] == http_schemes@[1]@);
}

/// What is at an ordinary address is fetched from the very address in the spec, character for
/// character, whether or not its lock is taken for one of any kind.
pub proof fn law_http_address(
    held: http::Lock,
    spec: &str,
    text: Option<String>,
    any_text: Option<String>,
)
    requires
        call_ensures(<http::Lock as Lock>::url_source, (&held, spec), text),
        call_ensures(<AnyLock as Lock>::url_source, (&AnyLock::Http(held), spec), any_text),
    ensures
        text matches Some(text) && text@ == spec@,
        any_text matches Some(text) && text@ == spec@,
        held.url_text(spec@) == Some(spec@),
        AnyLock::Http(held).url_text(spec@) == Some(spec@),
{
}

/// Whether an address is the one that the `url` crate reads in a text.
pub open spec fn is_read_from(url: Url, text: Seq<char>) -> bool {
    &&& url_href(text) == Some(url.href@)
    &&& match (url.path_segments, url_path_segments(text)) {
        (Some(segments), Some(named)) => {
            &&& segments@.len() == named.len()
            &&& forall|i: int| 0 <= i < named.len() ==> (#[trigger] segments@[i])@ == named[i]
        },
        (None, None) => true,
        _ => false,
    }
}

/// What was read from a text is read from it.
proof fn lemma_read(url: Url, text: Seq<char>)
    requires
        url.read_from(text),
    ensures
        is_read_from(url, text),
{
    if let Some(segments) = url.path_segments {
        let named = url_path_segments(text)->0;
        assert forall|i: int| 0 <= i < named.len() implies (#[trigger] segments@[i])@ == named[i] by {
            assert(named[i] == segments@.map_values(|s: String| s@)[i]);
        }
    }
}

/// An address is read exactly where the `url` crate reads one, and is the one that it reads.
pub proof fn law_parse(input: &str, url: Option<Url>)
    requires
        call_ensures(Url::parse, (input,), url),
    ensures
        match url {
            Some(url) => is_read_from(url, input@),
            None => url_href(input@) is None,
        },
{
    if let Some(url) = url {
        lemma_read(url, input@);
    }
}

/// What is at an ordinary address is fetched from the address that the `url` crate reads in the
/// spec.
pub proof fn law_http_url(
    held: http::Lock,
    spec: &str,
    url: Url,
    checked: Option<Url>,
    any_checked: Option<Url>,
)
    requires
        call_ensures(<http::Lock as Lock>::url, (&held, spec), url),
        call_ensures(checked_url::<http::Lock>, (&held, spec), checked),
        call_ensures(checked_url::<AnyLock>, (&AnyLock::Http(held), spec), any_checked),
    ensures
        is_read_from(url, spec@),
        match checked {
            Some(checked) => is_read_from(checked, spec@),
            None => url_href(spec@) is None,
        },
        match any_checked {
            Some(checked) => is_read_from(checked, spec@),
            None => url_href(spec@) is None,
        },
{
    lemma_read(url, spec@);
    if let Some(checked) = checked {
        lemma_read(checked, spec@);
    }
    if let Some(checked) = any_checked {
        lemma_read(checked, spec@);
    }
}

/// The tarball of a commit on GitHub is fetched from the archive of the repository: what stands
/// between `github:` and the first slash is its owner, what stands behind is its name. A spec
/// without these leads nowhere. It makes no difference whether the lock is taken for one of any
/// kind.
pub proof fn law_github_address(
    held: github::Lock,
    spec: &str,
    text: Option<String>,
    any_text: Option<String>,
)
    requires
        call_ensures(<github::Lock as Lock>::url_source, (&held, spec), text),
        call_ensures(<AnyLock as Lock>::url_source, (&AnyLock::GitHub(held), spec), any_text),
    ensures
        text is None <==> {
            ||| !"github:"@.is_prefix_of(spec@)
            ||| !spec@.skip("github:"@.len() as int).contains('/')
        },
        forall|owner: Seq<char>, repo: Seq<char>|
            !owner.contains('/') && spec@ == #[trigger] ("github:"@ + (owner + seq!['/'] + repo))
                ==> (text matches Some(text) && text@ == "https://github.com/"@ + owner + "/"@
                + repo + "/archive/"@ + held.rev@ + ".tar.gz"@),
        match (text, any_text) {
            (Some(text), Some(any_text)) => text@ == any_text@,
            (None, None) => true,
            _ => false,
        },
{
    if "github:"@.is_prefix_of(spec@) {
        lemma_cut_parts(spec@.skip("github:"@.len() as int), '/');
    }
    assert forall|owner: Seq<char>, repo: Seq<char>|
        !owner.contains('/') && spec@ == #[trigger] ("github:"@ + (owner + seq![
            '/',
        ] + repo)) implies text matches Some(text) && text@ == "https://github.com/"@ + owner
        + "/"@ + repo + "/archive/"@ + held.rev@ + ".tar.gz"@ by {
        lemma_stripped("github:"@, owner + seq!['/'] + repo);
        lemma_cut(owner, '/', repo);
    }
}

/// What is fetched for a commit on GitHub is at the address that the `url` crate reads in the
/// address of its archive.
pub proof fn law_github_url(
    held: github::Lock,
    owner: Seq<char>,
    repo: Seq<char>,
    spec: &str,
    url: Url,
    checked: Option<Url>,
    any_checked: Option<Url>,
)
    requires
        !owner.contains('/'),
        spec@ == "github:"@ + (owner + seq!['/'] + repo),
        call_ensures(<github::Lock as Lock>::url, (&held, spec), url),
        call_ensures(checked_url::<github::Lock>, (&held, spec), checked),
        call_ensures(checked_url::<AnyLock>, (&AnyLock::GitHub(held), spec), any_checked),
    ensures
        ({
            let address = "https://github.com/"@ + owner + "/"@ + repo + "/archive/"@ + held.rev@
                + ".tar.gz"@;
            &&& is_read_from(url, address)
            &&& match checked {
                Some(checked) => is_read_from(checked, address),
                None => url_href(address) is None,
            }
            &&& match any_checked {
                Some(checked) => is_read_from(checked, address),
                None => url_href(address) is None,
            }
        }),
{
    lemma_stripped("github:"@, owner + seq!['/'] + repo);
    lemma_cut(owner, '/', repo);
    let address = "https://github.com/"@ + owner + "/"@ + repo + "/archive/"@ + held.rev@
        + ".tar.gz"@;
    lemma_read(url, address);
    if let Some(checked) = checked {
        lemma_read(checked, address);
    }
    if let Some(checked) = any_checked {
        lemma_read(checked, address);
    }
}

/// What a lock on GitHub says: its content never changes, and its tag is what people call it.
pub proof fn law_github_answers(
    held: github::Lock,
    immutable: bool,
    version: Option<String>,
    modified: Option<Timestamp>,
    any: AnyLock,
)
    requires
        call_ensures(<github::Lock as Lock>::is_immutable, (&held,), immutable),
        call_ensures(<github::Lock as Lock>::version, (&held,), version),
        call_ensures(<github::Lock as Lock>::last_modified, (&held,), modified),
        call_ensures(<github::Lock as Lock>::into_any, (held,), any),
    ensures
        immutable,
        version == held.tag,
        modified is None,
        any == AnyLock::GitHub(held),
{
}

/// What the lock of an ordinary address says: its content may change, and nothing else is known.
pub proof fn law_http_answers(
    held: http::Lock,
    immutable: bool,
    version: Option<String>,
    modified: Option<Timestamp>,
    any: AnyLock,
)
    requires
        call_ensures(<http::Lock as Lock>::is_immutable, (&held,), immutable),
        call_ensures(<http::Lock as Lock>::version, (&held,), version),
        call_ensures(<http::Lock as Lock>::last_modified, (&held,), modified),
        call_ensures(<http::Lock as Lock>::into_any, (held,), any),
    ensures
        !immutable,
        version is None,
        modified is None,
        any == AnyLock::Http(held),
{
}

/// What a lock of any kind says is what the lock of its kind says.
pub proof fn law_any_answers(
    held: AnyLock,
    immutable: bool,
    version: Option<String>,
    modified: Option<Timestamp>,
    any: AnyLock,
)
    requires
        call_ensures(<AnyLock as Lock>::is_immutable, (&held,), immutable),
        call_ensures(<AnyLock as Lock>::version, (&held,), version),
        call_ensures(<AnyLock as Lock>::last_modified, (&held,), modified),
        call_ensures(<AnyLock as Lock>::into_any, (held,), any),
    ensures
        immutable <==> held is GitHub,
        match held {
            AnyLock::GitHub(lock) => version == lock.tag,
            AnyLock::Http(_) => version is None,
        },
        modified is None,
        any == held,
{
}

/// Locking an ordinary address never changes anything by itself.
pub proof fn law_http_lock(
    spec: String,
    rev_spec: http::Spec,
    before: Option<&http::Lock>,
    result: LockResult<http::Lock>,
)
    requires
        call_ensures(<http::Http as Source>::lock, (spec, rev_spec, before), result),
    ensures
        result is Unchanged,
{
}

/// A lock taken for one of any kind stays what it is, and so does what it replaces.
pub proof fn law_into_dyn(
    on_github: LockResult<github::Lock>,
    any_github: LockResult<AnyLock>,
    on_http: LockResult<http::Lock>,
    any_http: LockResult<AnyLock>,
)
    requires
        call_ensures(LockResult::<github::Lock>::into_dyn, (on_github,), any_github),
        call_ensures(LockResult::<http::Lock>::into_dyn, (on_http,), any_http),
    ensures
        match (on_github, any_github) {
            (LockResult::Unchanged(lock), LockResult::Unchanged(any)) => any == AnyLock::GitHub(
                lock,
            ),
            (LockResult::Changed(Some(old), lock), LockResult::Changed(Some(any_old), any)) => {
                any_old == AnyLock::GitHub(old) && any == AnyLock::GitHub(lock)
            },
            (LockResult::Changed(None, lock), LockResult::Changed(None, any)) => any
                == AnyLock::GitHub(lock),
            _ => false,
        },
        match (on_http, any_http) {
            (LockResult::Unchanged(_), LockResult::Unchanged(any)) => any is Http,
            (LockResult::Changed(Some(_), _), LockResult::Changed(Some(old), any)) => old is Http
                && any is Http,
            (LockResult::Changed(None, _), LockResult::Changed(None, any)) => any is Http,
            _ => false,
        },
{
}

/// A result gives back the locks that it was made of.
pub proof fn law_result<T>(
    result: LockResult<T>,
    current: &T,
    previous: Option<&T>,
    taken: T,
    changed: bool,
)
    requires
        call_ensures(LockResult::<T>::current, (&result,), current),
        call_ensures(LockResult::<T>::previous, (&result,), previous),
        call_ensures(LockResult::<T>::into_current, (result,), taken),
        call_ensures(LockResult::<T>::is_changed, (&result,), changed),
    ensures
        match result {
            LockResult::Unchanged(lock) => {
                *current == lock && taken == lock && previous is None && !changed
            },
            LockResult::Changed(old, lock) => {
                &&& *current == lock
                &&& taken == lock
                &&& changed
                &&& match (old, previous) {
                    (Some(old), Some(previous)) => *previous == old,
                    (None, None) => true,
                    _ => false,
                }
            },
        },
{
}

/// Reporting a change keeps the current lock, and makes it its own predecessor where it was
/// unchanged.
pub proof fn law_into_changed(result: LockResult<AnyLock>, changed: LockResult<AnyLock>)
    requires
        call_ensures(LockResult::<AnyLock>::into_changed, (result,), changed),
    ensures
        match result {
            LockResult::Unchanged(lock) => changed == LockResult::Changed(Some(lock), lock),
            LockResult::Changed(old, lock) => changed == LockResult::Changed(old, lock),
        },
{
}

/// What is said of the parts of a result is said of the locks that it was made of.
pub proof fn law_parts_of_result<T>(lock: T, old: Option<T>)
    ensures
        LockResult::Unchanged(lock).current_lock() == lock,
        LockResult::Unchanged(lock).old_lock() is None,
        LockResult::Unchanged(lock).as_changed() == LockResult::Changed(Some(lock), lock),
        LockResult::Changed(old, lock).current_lock() == lock,
        LockResult::Changed(old, lock).old_lock() == old,
        LockResult::Changed(old, lock).as_changed() == LockResult::Changed(old, lock),
{
}

/// An answer is of use exactly where it holds data and no list of errors, and then gives the data.
/// Otherwise all errors are told, each on a line of its own and in order, or that there is nothing.
pub proof fn law_anyhow<T>(response: Response<T>, result: Result<T, ResponseError>)
    requires
        call_ensures(Response::<T>::anyhow, (response,), result),
    ensures
        result is Ok <==> response.errors is None && response.data is Some,
        result matches Ok(data) ==> response.data == Some(data),
        response.errors is None && response.data is None ==> result == Err::<T, ResponseError>(
            ResponseError::NoData,
        ),
        response.errors matches Some(errors) ==> {
            &&& result matches Err(ResponseError::Errors(text))
            &&& errors@.len() == 0 ==> text@.len() == 0
            &&& errors@.len() > 0 ==> text@ + "\n"@ == errors@.map_values(
                |error: QueryError| query_error_text(error@) + "\n"@,
            ).flatten()
        },
{
    if let Some(errors) = response.errors {
        if errors@.len() > 0 {
            let shown = errors@.map_values(|error: QueryError| query_error_text(error@));
            law_joined(shown, "\n"@);
            assert(errors@.map_values(|error: QueryError| query_error_text(error@) + "\n"@)
                =~= shown.map_values(|part: Seq<char>| part + "\n"@));
        }
    }
}

/// An error in an answer is told with its message at the end, whatever else is known of it.
pub proof fn law_error_text(error: QueryError)
    ensures
        exists|place: Seq<char>|
            query_error_text(error@) == #[trigger] (place + (": "@ + error.message@)),
        error.path is None && error.locations is None ==> query_error_text(error@) == "<query>:0:0: "@
            + error.message@,
{
    let text = query_error_text(error@);
    let tail = ": "@ + error.message@;
    let place = text.take(text.len() - tail.len());
    assert(text =~= place + tail);
    reveal_strlit("<query>:0:0: ");
    reveal_strlit("<query>");
    reveal_strlit(":");
    reveal_strlit(": ");
    if error.path is None && error.locations is None {
        assert(crate::text::decimal(0) =~= seq!['0']);
        assert(text =~= "<query>:0:0: "@ + error.message@);
    }
}

/// One step on the way to a value is shown by its key or by its index, with a slash behind.
pub open spec fn step_text(step: PathFragmentView) -> Seq<char> {
    match step {
        PathFragmentView::Key(key) => key + "/"@,
        PathFragmentView::Index(index) => signed_decimal(index as int) + "/"@,
    }
}

/// The steps of a path are shown one behind the other.
proof fn lemma_path_text(path: Seq<PathFragmentView>)
    ensures
        path_text(path) == path.map_values(|step: PathFragmentView| step_text(step)).flatten(),
    decreases path.len(),
{
    let shown = path.map_values(|step: PathFragmentView| step_text(step));
    shown.lemma_flatten_and_flatten_alt_are_equivalent();
    if path.len() > 0 {
        let before = path.drop_last();
        lemma_path_text(before);
        let shown_before = before.map_values(|step: PathFragmentView| step_text(step));
        shown_before.lemma_flatten_and_flatten_alt_are_equivalent();
        assert(shown.drop_last() =~= shown_before);
        assert(shown.last() == step_text(path.last()));
        assert(path_text(path) =~= path_text(before) + step_text(path.last()));
    } else {
        assert(shown.flatten_alt() =~= Seq::empty());
    }
}

/// An error in an answer is told with the steps of its path, but for slashes at the end, then with
/// the line and the column of its first location, and then with its message.
pub proof fn law_located_error_text(error: QueryErrorView)
    requires
        error.path is Some,
    ensures
        ({
            let steps = error.path->0.map_values(
                |step: PathFragmentView| step_text(step),
            ).flatten();
            let place = steps.take(query_error_text(error).len() - rest_of(error).len());
            &&& query_error_text(error) == place + rest_of(error)
            &&& place.len() > 0 ==> place.last() != '/'
            &&& forall|i: int| place.len() <= i < steps.len() ==> #[trigger] steps[i] == '/'
        }),
{
    lemma_path_text(error.path->0);
    let steps = path_text(error.path->0);
    law_trimmed_end(steps, '/');
    let place = trimmed_end(steps, '/');
    assert(query_error_text(error) =~= place + rest_of(error));
    assert(steps.take(place.len() as int) =~= place);
}

/// What is told of an error behind its path.
pub open spec fn rest_of(error: QueryErrorView) -> Seq<char> {
    let (line, column) = if error.locations is Some && error.locations->0.len() > 0 {
        (error.locations->0[0].line, error.locations->0[0].column)
    } else {
        (0, 0)
    };
    ":"@ + signed_decimal(line as int) + ":"@ + signed_decimal(column as int) + ": "@
        + error.message
}

/// An error is told in the words that belong to it: those of the server where it reported errors,
/// and otherwise words that depend on nothing but the kind of error.
pub proof fn law_message(error: LockError, message: String)
    requires
        call_ensures(LockError::message, (&error,), message),
    ensures
        error matches LockError::Response(ResponseError::Errors(text)) ==> message@ == text@,
        error matches LockError::Response(ResponseError::NoData) ==> message@
            == "no data or errors"@,
        error is InvalidSpec ==> message@ == "invalid spec"@,
        error is UnknownScheme ==> message@ == "unknown scheme"@,
        error is InvalidRevisionSpec ==> message@ == "invalid rev spec"@,
        error is InvalidLock ==> message@ == "invalid lock"@,
        error is NoRepository ==> message@ == "no repository"@,
        error is NoTarget ==> message@ == "no target"@,
        error is NotATag ==> message@ == "not a tag "@,
        error is InvalidPattern ==> message@ == "invalid glob pattern"@,
        error is NoRefs ==> message@ == "no refs"@,
        error is NoMatchingTag ==> message@ == "no matching tag found"@,
        error is BranchNotFound ==> message@ == "branch not found"@,
        error is NoTargetCommit ==> message@ == "no target commit: "@,
        error is NoDefaultBranch ==> message@ == "no default branch"@,
        error is NoRelease ==> message@ == "no release found"@,
        error is ReleaseWithoutTag ==> message@ == "release is not a tag??"@,
        error is TagWithoutCommit ==> message@ == "tag has no commit??"@,
{
}

} // verus!
