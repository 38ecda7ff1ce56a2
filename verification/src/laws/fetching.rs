//! Fetching content, and following how far it has come.

use vstd::prelude::*;

use crate::address::Url;
use crate::nix_prefetch::fetch;
use crate::nix_prefetch::report_in;
use crate::nix_prefetch::Action;
use crate::nix_prefetch::ActivityType;
use crate::nix_prefetch::FetchError;
use crate::nix_prefetch::FetchStart;
use crate::nix_prefetch::Field;
use crate::nix_prefetch::Monitor;
use crate::nix_prefetch::ResultType;
use crate::nix_prefetch::Style;
use crate::nix_prefetch::Update;

verus! {

/// The numbers that stand for activities in the log.
pub proof fn law_activity_code(activity: ActivityType, code: u8)
    requires
        call_ensures(ActivityType::code, (&activity,), code),
    ensures
        code == 0 <==> activity is Unknown,
        code == 100 <==> activity is CopyPath,
        code == 101 <==> activity is FileTransfer,
        code == 102 <==> activity is Realise,
        code == 103 <==> activity is CopyPaths,
        code == 104 <==> activity is Builds,
        code == 105 <==> activity is Build,
        code == 106 <==> activity is OptimiseStore,
        code == 107 <==> activity is VerifyPaths,
        code == 108 <==> activity is Substitute,
        code == 109 <==> activity is QueryPathInfo,
        code == 110 <==> activity is PostBuildHook,
        code == 111 <==> activity is BuildWaiting,
        code == 112 <==> activity is FetchTree,
{
}

/// An activity is read from its number and from no other.
pub proof fn law_activity_from_code(
    activity: ActivityType,
    code: u8,
    read_code: u8,
    read: Option<ActivityType>,
)
    requires
        call_ensures(ActivityType::code, (&activity,), code),
        call_ensures(ActivityType::from_code, (read_code,), read),
    ensures
        read == Some(activity) <==> read_code == code,
{
}

/// The numbers that stand for reports in the log.
pub proof fn law_result_code(result: ResultType, code: u8)
    requires
        call_ensures(ResultType::code, (&result,), code),
    ensures
        code == 100 <==> result is FileLinked,
        code == 101 <==> result is BuildLogLine,
        code == 102 <==> result is UntrustedPath,
        code == 103 <==> result is CorruptedPath,
        code == 104 <==> result is SetPhase,
        code == 105 <==> result is Progress,
        code == 106 <==> result is SetExpected,
        code == 107 <==> result is PostBuildLogLine,
        code == 108 <==> result is FetchStatus,
{
}

/// A report is read from its number and from no other.
pub proof fn law_result_from_code(
    result: ResultType,
    code: u8,
    read_code: u8,
    read: Option<ResultType>,
)
    requires
        call_ensures(ResultType::code, (&result,), code),
        call_ensures(ResultType::from_code, (read_code,), read),
    ensures
        read == Some(result) <==> read_code == code,
{
}

/// A value is a number or a text, never both, and is given back as it is.
pub proof fn law_field(field: Field, number: Option<i64>, text: Option<&str>)
    requires
        call_ensures(Field::as_int, (&field,), number),
        call_ensures(Field::as_str, (&field,), text),
    ensures
        match field {
            Field::Int(held) => number == Some(held) && text is None,
            Field::Str(held) => number is None && text is Some && text->0@ == held@,
        },
{
}

/// A line holds a report exactly where it starts with `@nix ` and a space, and the report is all
/// that follows.
pub proof fn law_report_in(line: &str, report: Option<&str>)
    requires
        call_ensures(report_in, (line,), report),
    ensures
        match report {
            Some(report) => line@ == "@nix "@ + report@,
            None => !"@nix "@.is_prefix_of(line@),
        },
{
    if let Some(report) = report {
        assert(line@ =~= "@nix "@ + report@);
    }
}

/// `nix` is told to fetch the address, which comes last, to write its log in JSON, to call what it
/// fetches `source`, and to unpack it exactly where that is asked for.
pub proof fn law_fetch_args(url: Url, unpack: bool, start: FetchStart)
    requires
        call_ensures(fetch, (&url, unpack), start),
    ensures
        start.args@.len() == (if unpack {
            9int
        } else {
            8
        }),
        start.args@[0]@ == "store"@,
        start.args@[1]@ == "prefetch-file"@,
        start.args@[2]@ == "--json"@,
        start.args@[3]@ == "--log-format"@,
        start.args@[4]@ == "internal-json"@,
        start.args@[5]@ == "--name"@,
        start.args@[6]@ == "source"@,
        unpack ==> start.args@[7]@ == "--unpack"@,
        start.args@.last()@ == url.href@,
{
    let texts = start.args@.map_values(|s: String| s@);
    assert(texts.len() == start.args@.len());
    assert(texts[0] == start.args@[0]@);
    assert(texts[1] == start.args@[1]@);
    assert(texts[2] == start.args@[2]@);
    assert(texts[3] == start.args@[3]@);
    assert(texts[4] == start.args@[4]@);
    assert(texts[5] == start.args@[5]@);
    assert(texts[6] == start.args@[6]@);
    assert(texts[7] == start.args@[7]@);
    assert(texts[texts.len() - 1] == start.args@.last()@);
}

/// A fetch is called by the last segment of the path of its address, or by the address where that
/// has no such path, and begins without a transfer to follow.
pub proof fn law_fetch_start(url: Url, unpack: bool, start: FetchStart)
    requires
        call_ensures(fetch, (&url, unpack), start),
    ensures
        match url.path_segments {
            Some(segments) => {
                &&& segments@.len() > 0 ==> start.title@ == segments@.last()@
                &&& segments@.len() == 0 ==> start.title@.len() == 0
            },
            None => start.title@ == url.href@,
        },
        start.monitor.act_id is None,
        start.monitor.saved_total is None,
{
}

/// The templates that show the progress, and the messages that tell of errors.
pub proof fn law_shown_texts(
    style: Style,
    template: &'static str,
    error: FetchError,
    message: &'static str,
)
    requires
        call_ensures(Style::template, (&style,), template),
        call_ensures(FetchError::message, (&error,), message),
    ensures
        style is Bar ==> template@ == "{spinner} {msg} {bar} {bytes}/{total_bytes}"@,
        style is Bytes ==> template@ == "{spinner} {msg} {bytes}"@,
        error is UnexpectedOutput ==> message@ == "unexpected nix output"@,
        error is UnexpectedProgress ==> message@ == "unexpected progress"@,
        error is UnexpectedTotal ==> message@ == "unexpected total"@,
{
}

/// Whether a report tells how far the transfer has come that is being followed.
pub open spec fn tells_progress(monitor: Monitor, action: Action) -> bool {
    action matches Action::Result { id, type_, .. } && type_ is Progress && monitor.act_id == Some(
        id,
    )
}

/// Whether a report calls for `result` and leaves `after`.
///
/// A message is shown. The first transfer of a file is followed from then on. How far it has come
/// is shown, in another style where the whole has become known or unknown, and with another length
/// where a known whole differs from the one before. All else changes nothing.
pub open spec fn takes_in(
    before: Monitor,
    action: Action,
    result: Result<Vec<Update>, FetchError>,
    after: Monitor,
) -> bool {
    &&& !tells_progress(before, action) ==> {
        &&& result matches Ok(updates)
        &&& action matches Action::Msg { msg } ==> updates@ == seq![Update::Message(msg)]
        &&& action !is Msg ==> updates@.len() == 0
        &&& after.saved_total == before.saved_total
        &&& after.act_id == (match action {
            Action::Start { id, type_, .. } if type_ is FileTransfer && before.act_id is None => {
                Some(id)
            },
            _ => before.act_id,
        })
    }
    &&& tells_progress(before, action) ==> (action matches Action::Result { fields, .. } ==> {
        &&& fields@[0] is Str ==> result == Err::<Vec<Update>, FetchError>(
            FetchError::UnexpectedProgress,
        ) && after == before
        &&& fields@[0] is Int && fields@[1] is Str ==> result == Err::<Vec<Update>, FetchError>(
            FetchError::UnexpectedTotal,
        ) && after == before
        &&& fields@[0] matches Field::Int(progress) ==> (fields@[1] matches Field::Int(total) ==> {
            &&& after.act_id == before.act_id
            &&& after.saved_total == Some(total)
            &&& result matches Ok(updates)
            &&& total == 0 && before.saved_total == Some(0i64) ==> updates@ == seq![
                Update::Position(progress as u64),
            ]
            &&& total == 0 && before.saved_total != Some(0i64) ==> updates@ == seq![
                Update::Style(Style::Bytes),
                Update::Position(progress as u64),
            ]
            &&& total != 0 && (before.saved_total is None || before.saved_total == Some(0i64))
                ==> updates@ == seq![
                Update::Style(Style::Bar),
                Update::Length(total as u64),
                Update::Position(progress as u64),
            ]
            &&& total != 0 && before.saved_total == Some(total) ==> updates@ == seq![
                Update::Position(progress as u64),
            ]
            &&& total != 0 && (before.saved_total matches Some(saved) && saved != 0 && saved
                != total) ==> updates@ == seq![
                Update::Length(total as u64),
                Update::Position(progress as u64),
            ]
        })
    })
}

/// What changes of what is shown, case by case.
proof fn lemma_progress_updates(monitor: Monitor, progress: i64, total: i64)
    ensures
        ({
            let updates = monitor.progress_updates(progress, total);
            &&& total == 0 && monitor.saved_total == Some(0i64) ==> updates == seq![
                Update::Position(progress as u64),
            ]
            &&& total == 0 && monitor.saved_total != Some(0i64) ==> updates == seq![
                Update::Style(Style::Bytes),
                Update::Position(progress as u64),
            ]
            &&& total != 0 && (monitor.saved_total is None || monitor.saved_total == Some(0i64))
                ==> updates == seq![
                Update::Style(Style::Bar),
                Update::Length(total as u64),
                Update::Position(progress as u64),
            ]
            &&& total != 0 && monitor.saved_total == Some(total) ==> updates == seq![
                Update::Position(progress as u64),
            ]
            &&& total != 0 && (monitor.saved_total matches Some(saved) && saved != 0 && saved
                != total) ==> updates == seq![
                Update::Length(total as u64),
                Update::Position(progress as u64),
            ]
        }),
{
}

/// What is known of a report that was taken in is what `takes_in` says.
proof fn lemma_takes_in(
    before: Monitor,
    action: Action,
    result: Result<Vec<Update>, FetchError>,
    after: Monitor,
)
    requires
        match result {
            Ok(updates) => before.updates(action) == Ok::<Seq<Update>, FetchError>(updates@),
            Err(error) => before.updates(action) == Err::<Seq<Update>, FetchError>(error),
        },
        after == before.after(action),
    ensures
        takes_in(before, action, result, after),
{
    if tells_progress(before, action) {
        if let Action::Result { fields, .. } = action {
            if let (Field::Int(progress), Field::Int(total)) = (fields@[0], fields@[1]) {
                lemma_progress_updates(before, progress, total);
            }
        }
    }
}

/// A report is taken in as `takes_in` says.
pub proof fn law_step(
    monitor: &mut Monitor,
    action: Action,
    result: Result<Vec<Update>, FetchError>,
)
    requires
        call_ensures(Monitor::step, (monitor, action), result),
    ensures
        takes_in(*old(monitor), action, result, *final(monitor)),
{
    lemma_takes_in(*old(monitor), action, result, *final(monitor));
}

/// A report that is checked first is taken in the same way, and is turned down exactly where it
/// tells how far the transfer has come but lacks a value that is read.
pub proof fn law_checked_step(
    monitor: &mut Monitor,
    action: Action,
    result: Option<Result<Vec<Update>, FetchError>>,
)
    requires
        call_ensures(Monitor::checked_step, (monitor, action), result),
    ensures
        result is None <==> tells_progress(*old(monitor), action) && (action matches Action::Result {
            fields,
            ..
        } && (fields@.len() == 0 || (fields@.len() == 1 && fields@[0] is Int))),
        match result {
            Some(result) => takes_in(*old(monitor), action, result, *final(monitor)),
            None => *final(monitor) == *old(monitor),
        },
{
    if let Some(result) = result {
        lemma_takes_in(*old(monitor), action, result, *final(monitor));
    }
}

/// A log may end exactly where a transfer has begun.
pub proof fn law_end(monitor: Monitor, end: Result<(), FetchError>)
    requires
        call_ensures(Monitor::end, (&monitor,), end),
    ensures
        end is Ok <==> monitor.act_id is Some,
        end matches Err(error) ==> error is UnexpectedOutput,
{
}

} // verus!
