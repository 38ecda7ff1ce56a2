//! Fetching content with `nix`, and following how far it has come.
//!
//! While it fetches, `nix` writes a log. The lines of the log that matter here start with `@nix`
//! and go on with a report in JSON.

use vstd::prelude::*;
use vstd::string::*;

use crate::address::segment_texts;
use crate::address::Url;
use crate::text::strip_prefix;
use crate::text::stripped;
use crate::text::texts;

verus! {

/// What `nix` is busy with.
#[derive(Debug, Clone, Copy, PartialEq, Eq, PartialOrd, Ord, Structural)]
pub enum ActivityType {
    /// Anything that has no name.
    Unknown,
    /// Copying one store path.
    CopyPath,
    /// Transferring a file.
    FileTransfer,
    /// Making store paths.
    Realise,
    /// Copying store paths.
    CopyPaths,
    /// All builds.
    Builds,
    /// One build.
    Build,
    /// Optimising the store.
    OptimiseStore,
    /// Verifying store paths.
    VerifyPaths,
    /// Substituting a store path.
    Substitute,
    /// Asking about a store path.
    QueryPathInfo,
    /// Running the hook that follows a build.
    PostBuildHook,
    /// Waiting for a build.
    BuildWaiting,
    /// Fetching a tree.
    FetchTree,
}

impl ActivityType {
    /// The number that stands for the activity in the log.
    pub open spec fn number(self) -> u8 {
        match self {
            ActivityType::Unknown => 0,
            ActivityType::CopyPath => 100,
            ActivityType::FileTransfer => 101,
            ActivityType::Realise => 102,
            ActivityType::CopyPaths => 103,
            ActivityType::Builds => 104,
            ActivityType::Build => 105,
            ActivityType::OptimiseStore => 106,
            ActivityType::VerifyPaths => 107,
            ActivityType::Substitute => 108,
            ActivityType::QueryPathInfo => 109,
            ActivityType::PostBuildHook => 110,
            ActivityType::BuildWaiting => 111,
            ActivityType::FetchTree => 112,
        }
    }

    /// The number that stands for the activity in the log.
    pub fn code(&self) -> (code: u8)
        ensures
            code == self.number(),
    {
        match self {
            ActivityType::Unknown => 0,
            ActivityType::CopyPath => 100,
            ActivityType::FileTransfer => 101,
            ActivityType::Realise => 102,
            ActivityType::CopyPaths => 103,
            ActivityType::Builds => 104,
            ActivityType::Build => 105,
            ActivityType::OptimiseStore => 106,
            ActivityType::VerifyPaths => 107,
            ActivityType::Substitute => 108,
            ActivityType::QueryPathInfo => 109,
            ActivityType::PostBuildHook => 110,
            ActivityType::BuildWaiting => 111,
            ActivityType::FetchTree => 112,
        }
    }

    /// The activity that a number in the log stands for.
    pub fn from_code(code: u8) -> (activity: Option<ActivityType>)
        ensures
            match activity {
                Some(activity) => activity.number() == code,
                None => forall|activity: ActivityType| #[trigger] activity.number() != code,
            },
    {
        match code {
            0 => Some(ActivityType::Unknown),
            100 => Some(ActivityType::CopyPath),
            101 => Some(ActivityType::FileTransfer),
            102 => Some(ActivityType::Realise),
            103 => Some(ActivityType::CopyPaths),
            104 => Some(ActivityType::Builds),
            105 => Some(ActivityType::Build),
            106 => Some(ActivityType::OptimiseStore),
            107 => Some(ActivityType::VerifyPaths),
            108 => Some(ActivityType::Substitute),
            109 => Some(ActivityType::QueryPathInfo),
            110 => Some(ActivityType::PostBuildHook),
            111 => Some(ActivityType::BuildWaiting),
            112 => Some(ActivityType::FetchTree),
            _ => None,
        }
    }
}

/// What `nix` reports of an activity.
#[derive(Debug, Clone, Copy, PartialEq, Eq, PartialOrd, Ord, Structural)]
pub enum ResultType {
    /// A file was linked.
    FileLinked,
    /// A build wrote a line.
    BuildLogLine,
    /// A store path is not trusted.
    UntrustedPath,
    /// A store path is corrupt.
    CorruptedPath,
    /// A build entered a phase.
    SetPhase,
    /// The activity has come so far.
    Progress,
    /// More of an activity is expected.
    SetExpected,
    /// The hook that follows a build wrote a line.
    PostBuildLogLine,
    /// A fetch has come so far.
    FetchStatus,
}

impl ResultType {
    /// The number that stands for the report in the log.
    pub open spec fn number(self) -> u8 {
        match self {
            ResultType::FileLinked => 100,
            ResultType::BuildLogLine => 101,
            ResultType::UntrustedPath => 102,
            ResultType::CorruptedPath => 103,
            ResultType::SetPhase => 104,
            ResultType::Progress => 105,
            ResultType::SetExpected => 106,
            ResultType::PostBuildLogLine => 107,
            ResultType::FetchStatus => 108,
        }
    }

    /// The number that stands for the report in the log.
    pub fn code(&self) -> (code: u8)
        ensures
            code == self.number(),
    {
        match self {
            ResultType::FileLinked => 100,
            ResultType::BuildLogLine => 101,
            ResultType::UntrustedPath => 102,
            ResultType::CorruptedPath => 103,
            ResultType::SetPhase => 104,
            ResultType::Progress => 105,
            ResultType::SetExpected => 106,
            ResultType::PostBuildLogLine => 107,
            ResultType::FetchStatus => 108,
        }
    }

    /// The report that a number in the log stands for.
    pub fn from_code(code: u8) -> (result: Option<ResultType>)
        ensures
            match result {
                Some(result) => result.number() == code,
                None => forall|result: ResultType| #[trigger] result.number() != code,
            },
    {
        match code {
            100 => Some(ResultType::FileLinked),
            101 => Some(ResultType::BuildLogLine),
            102 => Some(ResultType::UntrustedPath),
            103 => Some(ResultType::CorruptedPath),
            104 => Some(ResultType::SetPhase),
            105 => Some(ResultType::Progress),
            106 => Some(ResultType::SetExpected),
            107 => Some(ResultType::PostBuildLogLine),
            108 => Some(ResultType::FetchStatus),
            _ => None,
        }
    }
}

/// No two activities, and no two reports, share a number.
pub proof fn law_numbers_tell_apart(
    a: ActivityType,
    b: ActivityType,
    r: ResultType,
    s: ResultType,
)
    ensures
        a.number() == b.number() ==> a == b,
        r.number() == s.number() ==> r == s,
{
}

/// A value in a report.
#[derive(Debug, PartialEq, Eq)]
pub enum Field {
    /// A number.
    Int(i64),
    /// A text.
    Str(String),
}

impl Field {
    /// The value, if it is a number.
    pub fn as_int(&self) -> (number: Option<i64>)
        ensures
            number == (match self {
                Field::Int(number) => Some(*number),
                Field::Str(_) => None,
            }),
    {
        match self {
            Field::Int(number) => Some(*number),
            Field::Str(_) => None,
        }
    }

    /// The value, if it is a text.
    pub fn as_str(&self) -> (text: Option<&str>)
        ensures
            match (self, text) {
                (Field::Str(string), Some(text)) => text@ == string@,
                (Field::Int(_), None) => true,
                _ => false,
            },
    {
        match self {
            Field::Str(string) => Some(string.as_str()),
            Field::Int(_) => None,
        }
    }
}

/// What comes of a fetch.
#[derive(Debug)]
pub struct PrefetchResult {
    /// The hash of the content.
    pub hash: ssri2::Integrity,
    /// Where in the store the content is.
    pub store_path: String,
}

/// A report in the log.
#[allow(inconsistent_fields)]
#[derive(Debug, PartialEq, Eq)]
pub enum Action {
    /// An activity started.
    Start {
        /// What there is to say of it.
        fields: Vec<Field>,
        /// The number of the activity.
        id: u64,
        /// How much it matters.
        level: u64,
        /// The activity that it is part of.
        parent: u64,
        /// What to call it.
        text: String,
        /// What kind of activity it is.
        type_: ActivityType,
    },
    /// An activity ended.
    Stop {
        /// The number of the activity.
        id: u64,
    },
    /// Something came of an activity.
    Result {
        /// What there is to say of it.
        fields: Vec<Field>,
        /// The number of the activity.
        id: u64,
        /// What kind of report it is.
        type_: ResultType,
    },
    /// There is something to tell the user.
    Msg {
        /// What to tell.
        msg: String,
    },
}

/// The report in a line of the log, where there is one.
pub fn report_in<'a>(line: &'a str) -> (report: Option<&'a str>)
    ensures
        match report {
            Some(report) => stripped(line@, "@nix "@) == Some(report@),
            None => stripped(line@, "@nix "@) is None,
        },
{
    strip_prefix(line, "@nix ")
}

/// The arguments with which `nix` fetches what is at an address.
pub open spec fn fetch_args(href: Seq<char>, unpack: bool) -> Seq<Seq<char>> {
    seq![
        "store"@,
        "prefetch-file"@,
        "--json"@,
        "--log-format"@,
        "internal-json"@,
        "--name"@,
        "source"@,
    ] + (if unpack {
        seq!["--unpack"@]
    } else {
        Seq::empty()
    }) + seq![href]
}

/// What to call a fetch before `nix` says anything: the last segment of the path, or the whole
/// address where it has no such path.
pub open spec fn fetch_title(url: Url) -> Seq<char> {
    match segment_texts(url.path_segments) {
        Some(segments) => if segments.len() > 0 {
            segments.last()
        } else {
            Seq::empty()
        },
        None => url.href@,
    }
}

/// A fetch that is to begin.
#[derive(Debug)]
pub struct FetchStart {
    /// The arguments for `nix`.
    pub args: Vec<String>,
    /// What to call the fetch.
    pub title: String,
    /// What is to follow the log.
    pub monitor: Monitor,
}

/// Begins to fetch what is at an address.
pub fn fetch(url: &Url, unpack: bool) -> (start: FetchStart)
    ensures
        texts(start.args@) == fetch_args(url.href@, unpack),
        start.title@ == fetch_title(*url),
        start.monitor == (Monitor { act_id: None, saved_total: None }),
{
    let mut args: Vec<String> = vec![
        "store".to_owned(),
        "prefetch-file".to_owned(),
        "--json".to_owned(),
        "--log-format".to_owned(),
        "internal-json".to_owned(),
        "--name".to_owned(),
        "source".to_owned(),
    ];
    if unpack {
        args.push("--unpack".to_owned());
    }
    args.push(url.href.clone());
    assert(texts(args@) =~= fetch_args(url.href@, unpack));
    let title: String = match &url.path_segments {
        Some(segments) => {
            if segments.len() > 0 {
                segments[segments.len() - 1].clone()
            } else {
                String::new()
            }
        },
        None => url.href.clone(),
    };
    FetchStart { args, title, monitor: Monitor { act_id: None, saved_total: None } }
}

/// How the progress of a fetch is shown.
#[derive(Debug, Clone, Copy, PartialEq, Eq, Structural)]
pub enum Style {
    /// As a share of the whole.
    Bar,
    /// As an amount, the whole being unknown.
    Bytes,
}

impl Style {
    /// The template that shows the progress.
    pub open spec fn template_text(self) -> Seq<char> {
        match self {
            Style::Bar => "{spinner} {msg} {bar} {bytes}/{total_bytes}"@,
            Style::Bytes => "{spinner} {msg} {bytes}"@,
        }
    }

    /// The template that shows the progress.
    pub fn template(&self) -> (template: &'static str)
        ensures
            template@ == self.template_text(),
    {
        match self {
            Style::Bar => "{spinner} {msg} {bar} {bytes}/{total_bytes}",
            Style::Bytes => "{spinner} {msg} {bytes}",
        }
    }
}

/// What changes of what is shown.
#[derive(Debug, PartialEq, Eq)]
pub enum Update {
    /// The message.
    Message(String),
    /// How the progress is shown.
    Style(Style),
    /// How much there is in all.
    Length(u64),
    /// How much there is so far.
    Position(u64),
}

/// Why the log is not understood.
#[derive(Debug, Clone, Copy, PartialEq, Eq, Structural)]
pub enum FetchError {
    /// The log ends before the transfer of a file begins.
    UnexpectedOutput,
    /// What is said to be the progress so far is no number.
    UnexpectedProgress,
    /// What is said to be the whole is no number.
    UnexpectedTotal,
}

impl FetchError {
    /// The message that tells of the error.
    pub open spec fn text(self) -> Seq<char> {
        match self {
            FetchError::UnexpectedOutput => "unexpected nix output"@,
            FetchError::UnexpectedProgress => "unexpected progress"@,
            FetchError::UnexpectedTotal => "unexpected total"@,
        }
    }

    /// The message that tells of the error.
    pub fn message(&self) -> (message: &'static str)
        ensures
            message@ == self.text(),
    {
        match self {
            FetchError::UnexpectedOutput => "unexpected nix output",
            FetchError::UnexpectedProgress => "unexpected progress",
            FetchError::UnexpectedTotal => "unexpected total",
        }
    }
}

/// How the progress is shown when this is the whole: the whole is unknown where it is zero.
pub open spec fn style_for(total: i64) -> Style {
    if total == 0 {
        Style::Bytes
    } else {
        Style::Bar
    }
}

/// What follows the log of a fetch.
#[derive(Debug, Clone, Copy, PartialEq, Eq, Structural)]
pub struct Monitor {
    /// The number of the transfer, once it has begun.
    pub act_id: Option<u64>,
    /// The whole, as it was last reported.
    pub saved_total: Option<i64>,
}

impl Monitor {
    /// The values in a report, where it tells how far the transfer has come.
    pub open spec fn progress_fields(self, action: Action) -> Option<Seq<Field>> {
        match action {
            Action::Result { fields, id, type_ } => {
                if self.act_id == Some(id) && type_ == ResultType::Progress {
                    Some(fields@)
                } else {
                    None
                }
            },
            _ => None,
        }
    }

    /// Whether a report holds as many values as are read from it: the progress so far and, where
    /// that is a number, the whole.
    pub open spec fn is_complete(self, action: Action) -> bool {
        self.progress_fields(action) matches Some(fields) ==> {
            &&& fields.len() > 0
            &&& fields[0] is Int ==> fields.len() > 1
        }
    }

    /// What changes of what is shown when the transfer has come so far. The style changes only
    /// where it is another than before, and so does the length, which is shown in one style only.
    pub open spec fn progress_updates(self, progress: i64, total: i64) -> Seq<Update> {
        let style = if self.saved_total matches Some(saved) && style_for(saved) == style_for(
            total,
        ) {
            Seq::empty()
        } else {
            seq![Update::Style(style_for(total))]
        };
        let length = if total == 0 || self.saved_total == Some(total) {
            Seq::empty()
        } else {
            seq![Update::Length(total as u64)]
        };
        style + length + seq![Update::Position(progress as u64)]
    }

    /// What changes of what is shown after a report.
    pub open spec fn updates(self, action: Action) -> Result<Seq<Update>, FetchError> {
        match self.progress_fields(action) {
            Some(fields) => match (fields[0], fields[1]) {
                (Field::Int(progress), Field::Int(total)) => Ok(
                    self.progress_updates(progress, total),
                ),
                (Field::Int(_), Field::Str(_)) => Err(FetchError::UnexpectedTotal),
                (Field::Str(_), _) => Err(FetchError::UnexpectedProgress),
            },
            None => match action {
                Action::Msg { msg } => Ok(seq![Update::Message(msg)]),
                _ => Ok(Seq::empty()),
            },
        }
    }

    /// What is known after a report. The first transfer of a file that begins is the one to
    /// follow.
    pub open spec fn after(self, action: Action) -> Monitor {
        match self.progress_fields(action) {
            Some(fields) => match (fields[0], fields[1]) {
                (Field::Int(_), Field::Int(total)) => Monitor {
                    act_id: self.act_id,
                    saved_total: Some(total),
                },
                _ => self,
            },
            None => match action {
                Action::Start { id, type_, .. } => {
                    if self.act_id is None && type_ == ActivityType::FileTransfer {
                        Monitor { act_id: Some(id), saved_total: self.saved_total }
                    } else {
                        self
                    }
                },
                _ => self,
            },
        }
    }

    /// Takes in how far the transfer has come.
    fn progress(&mut self, progress: i64, total: i64) -> (updates: Vec<Update>)
        ensures
            updates@ == old(self).progress_updates(progress, total),
            *final(self) == (Monitor { act_id: old(self).act_id, saved_total: Some(total) }),
    {
        let mut updates: Vec<Update> = Vec::new();
        if total != 0 {
            let was_unknown: bool = match self.saved_total {
                Some(saved) => saved == 0,
                None => true,
            };
            if was_unknown {
                updates.push(Update::Style(Style::Bar));
            }
            let is_new: bool = match self.saved_total {
                Some(saved) => saved != total,
                None => true,
            };
            if is_new {
                updates.push(Update::Length(total as u64));
            }
        } else {
            let was_known: bool = match self.saved_total {
                Some(saved) => saved != 0,
                None => true,
            };
            if was_known {
                updates.push(Update::Style(Style::Bytes));
            }
        }
        updates.push(Update::Position(progress as u64));
        assert(updates@ =~= self.progress_updates(progress, total));
        self.saved_total = Some(total);
        updates
    }

    /// Takes in a report, and tells what changes of what is shown.
    pub fn step(&mut self, action: Action) -> (updates: Result<Vec<Update>, FetchError>)
        requires
            old(self).is_complete(action),
        ensures
            match updates {
                Ok(updates) => old(self).updates(action) == Ok::<Seq<Update>, FetchError>(
                    updates@,
                ),
                Err(error) => old(self).updates(action) == Err::<Seq<Update>, FetchError>(error),
            },
            *final(self) == old(self).after(action),
    {
        match action {
            Action::Msg { msg } => {
                let updates: Vec<Update> = vec![Update::Message(msg)];
                assert(updates@ =~= seq![Update::Message(msg)]);
                Ok(updates)
            },
            Action::Start { id, type_, .. } => {
                if self.act_id.is_none() && type_ == ActivityType::FileTransfer {
                    self.act_id = Some(id);
                }
                Ok(Vec::new())
            },
            Action::Result { fields, id, type_ } => {
                let ours: bool = match self.act_id {
                    Some(act_id) => act_id == id,
                    None => false,
                };
                if !ours || type_ != ResultType::Progress {
                    return Ok(Vec::new());
                }
                let progress: i64 = match fields[0].as_int() {
                    Some(progress) => progress,
                    None => return Err(FetchError::UnexpectedProgress),
                };
                let total: i64 = match fields[1].as_int() {
                    Some(total) => total,
                    None => return Err(FetchError::UnexpectedTotal),
                };
                Ok(self.progress(progress, total))
            },
            Action::Stop { .. } => Ok(Vec::new()),
        }
    }

    /// Whether a report holds as many values as are read from it.
    fn holds_enough(&self, action: &Action) -> (enough: bool)
        ensures
            enough == self.is_complete(*action),
    {
        match action {
            Action::Result { fields, id, type_ } => {
                let ours: bool = match self.act_id {
                    Some(act_id) => act_id == *id,
                    None => false,
                };
                if !ours || *type_ != ResultType::Progress {
                    return true;
                }
                fields.len() > 0 && (fields[0].as_int().is_none() || fields.len() > 1)
            },
            _ => true,
        }
    }

    /// Takes in a report, where it holds as many values as are read from it, and tells what changes
    /// of what is shown.
    pub fn checked_step(&mut self, action: Action) -> (updates: Option<
        Result<Vec<Update>, FetchError>,
    >)
        ensures
            match updates {
                Some(Ok(updates)) => {
                    &&& old(self).is_complete(action)
                    &&& old(self).updates(action) == Ok::<Seq<Update>, FetchError>(updates@)
                    &&& *final(self) == old(self).after(action)
                },
                Some(Err(error)) => {
                    &&& old(self).is_complete(action)
                    &&& old(self).updates(action) == Err::<Seq<Update>, FetchError>(error)
                    &&& *final(self) == old(self).after(action)
                },
                None => !old(self).is_complete(action) && *final(self) == *old(self),
            },
    {
        if self.holds_enough(&action) {
            Some(self.step(action))
        } else {
            None
        }
    }

    /// What it means that the log has ended: an error unless a transfer has begun.
    pub open spec fn ended(self) -> Result<(), FetchError> {
        if self.act_id is Some {
            Ok(())
        } else {
            Err(FetchError::UnexpectedOutput)
        }
    }

    /// Takes in that the log has ended. That is an error unless a transfer has begun.
    pub fn end(&self) -> (end: Result<(), FetchError>)
        ensures
            end == self.ended(),
    {
        if self.act_id.is_some() {
            Ok(())
        } else {
            Err(FetchError::UnexpectedOutput)
        }
    }
}

/// What the log of a fetch comes to.
pub enum Outcome {
    /// The log ends, and a transfer has begun or not.
    Ended(Result<(), FetchError>),
    /// A report is not understood.
    Failed(FetchError),
    /// A report lacks a value.
    Incomplete,
    /// A report cannot be read.
    Unreadable,
}

/// What changes of what is shown over a whole log, in order, and what the log comes to. `read`
/// tells what is reported in each text. Nothing is read of the log behind a report that is not
/// understood.
pub open spec fn follow(
    monitor: Monitor,
    log: Seq<Seq<char>>,
    read: spec_fn(Seq<char>) -> Option<Action>,
) -> (Seq<Update>, Outcome)
    decreases log.len(),
{
    if log.len() == 0 {
        (Seq::empty(), Outcome::Ended(monitor.ended()))
    } else {
        match stripped(log[0], "@nix "@) {
            Some(report) => match read(report) {
                Some(action) => {
                    if !monitor.is_complete(action) {
                        (Seq::empty(), Outcome::Incomplete)
                    } else {
                        match monitor.updates(action) {
                            Ok(updates) => {
                                let rest = follow(monitor.after(action), log.drop_first(), read);
                                (updates + rest.0, rest.1)
                            },
                            Err(error) => (Seq::empty(), Outcome::Failed(error)),
                        }
                    }
                },
                None => (Seq::empty(), Outcome::Unreadable),
            },
            None => follow(monitor, log.drop_first(), read),
        }
    }
}

/// The lines of a log that hold a report.
pub open spec fn report_lines(log: Seq<Seq<char>>) -> Seq<Seq<char>> {
    log.filter(|line: Seq<char>| stripped(line, "@nix "@) is Some)
}

/// A log comes to what its lines with reports come to.
proof fn lemma_report_lines(
    monitor: Monitor,
    log: Seq<Seq<char>>,
    read: spec_fn(Seq<char>) -> Option<Action>,
)
    ensures
        follow(monitor, log, read) == follow(monitor, report_lines(log), read),
    decreases log.len(),
{
    let holds_report = |line: Seq<char>| stripped(line, "@nix "@) is Some;
    if log.len() == 0 {
        assert(report_lines(log) =~= log) by {
            reveal(Seq::filter);
        }
    } else {
        let first = seq![log[0]];
        let rest = log.drop_first();
        assert(log =~= first + rest);
        Seq::filter_distributes_over_add(first, rest, holds_report);
        assert(report_lines(log) == first.filter(holds_report) + report_lines(rest));
        assert(first.drop_last() =~= Seq::empty());
        assert(first.filter(holds_report) =~= if holds_report(log[0]) {
            first
        } else {
            Seq::empty()
        }) by {
            reveal(Seq::filter);
            assert(first.drop_last().filter(holds_report) =~= Seq::empty());
        }
        match stripped(log[0], "@nix "@) {
            Some(report) => {
                assert(report_lines(log).drop_first() =~= report_lines(rest));
                if let Some(action) = read(report) {
                    lemma_report_lines(monitor.after(action), rest, read);
                }
            },
            None => {
                assert(report_lines(log) =~= report_lines(rest));
                lemma_report_lines(monitor, rest, read);
            },
        }
    }
}

/// Lines without a report make no difference: two logs with the same reports in the same order,
/// whatever other lines stand between them, show the same and come to the same.
pub proof fn law_other_lines_make_no_difference(
    monitor: Monitor,
    log: Seq<Seq<char>>,
    other: Seq<Seq<char>>,
    read: spec_fn(Seq<char>) -> Option<Action>,
)
    requires
        report_lines(log) == report_lines(other),
    ensures
        follow(monitor, log, read) == follow(monitor, other, read),
{
    lemma_report_lines(monitor, log, read);
    lemma_report_lines(monitor, other, read);
}

/// Lines without a report leave none behind.
proof fn lemma_no_report_lines(lines: Seq<Seq<char>>)
    requires
        forall|i: int| 0 <= i < lines.len() ==> stripped(#[trigger] lines[i], "@nix "@) is None,
    ensures
        report_lines(lines) == Seq::<Seq<char>>::empty(),
    decreases lines.len(),
{
    reveal(Seq::filter);
    if lines.len() > 0 {
        let before = lines.drop_last();
        assert forall|i: int| 0 <= i < before.len() implies stripped(
            #[trigger] before[i],
            "@nix "@,
        ) is None by {
            assert(before[i] == lines[i]);
        }
        lemma_no_report_lines(before);
    }
}

/// Lines without a report may stand anywhere in a log: it has the same reports, and so comes to
/// the same, with and without them.
pub proof fn law_lines_may_be_put_in(
    monitor: Monitor,
    before: Seq<Seq<char>>,
    lines: Seq<Seq<char>>,
    after: Seq<Seq<char>>,
    read: spec_fn(Seq<char>) -> Option<Action>,
)
    requires
        forall|i: int| 0 <= i < lines.len() ==> stripped(#[trigger] lines[i], "@nix "@) is None,
    ensures
        report_lines(before + lines + after) == report_lines(before + after),
        follow(monitor, before + lines + after, read) == follow(monitor, before + after, read),
{
    let holds_report = |line: Seq<char>| stripped(line, "@nix "@) is Some;
    Seq::filter_distributes_over_add(before + lines, after, holds_report);
    Seq::filter_distributes_over_add(before, lines, holds_report);
    Seq::filter_distributes_over_add(before, after, holds_report);
    lemma_no_report_lines(lines);
    assert(report_lines(before) + report_lines(lines) =~= report_lines(before));
    law_other_lines_make_no_difference(monitor, before + lines + after, before + after, read);
}

/// What is shown of a fetch.
pub struct Shown {
    /// The message.
    pub message: Option<String>,
    /// How the progress is shown.
    pub style: Option<Style>,
    /// How much there is in all.
    pub length: Option<u64>,
    /// How much there is so far.
    pub position: Option<u64>,
}

impl Shown {
    /// What is shown after one change.
    pub open spec fn changed(self, update: Update) -> Shown {
        match update {
            Update::Message(message) => Shown { message: Some(message), ..self },
            Update::Style(style) => Shown { style: Some(style), ..self },
            Update::Length(length) => Shown { length: Some(length), ..self },
            Update::Position(position) => Shown { position: Some(position), ..self },
        }
    }

    /// What is shown after some changes.
    pub open spec fn updated(self, updates: Seq<Update>) -> Shown
        decreases updates.len(),
    {
        if updates.len() == 0 {
            self
        } else {
            self.changed(updates[0]).updated(updates.drop_first())
        }
    }

    /// Whether the style and the length are those for the whole as it was last reported.
    pub open spec fn fits(self, monitor: Monitor) -> bool {
        monitor.saved_total matches Some(total) ==> {
            &&& self.style == Some(style_for(total))
            &&& total != 0 ==> self.length == Some(total as u64)
        }
    }
}

/// Once a transfer is being followed no other is, and none is before one begins.
pub proof fn law_one_transfer_is_followed(monitor: Monitor, action: Action)
    ensures
        monitor.act_id is Some ==> monitor.after(action).act_id == monitor.act_id,
        monitor.act_id is None ==> (monitor.after(action).act_id matches Some(id) ==> {
            &&& action matches Action::Start { id: started, type_, .. }
            &&& started == id
            &&& type_ == ActivityType::FileTransfer
        }),
        monitor.act_id is None && action is Result ==> monitor.updates(action) == Ok::<
            Seq<Update>,
            FetchError,
        >(Seq::empty()) && monitor.after(action) == monitor,
{
}

/// Though only what differs is updated, style and length are always those for the whole as it was
/// last reported, and the position is the progress as it was last reported.
pub proof fn law_what_is_shown_fits(monitor: Monitor, shown: Shown, action: Action)
    requires
        shown.fits(monitor),
        monitor.is_complete(action),
        monitor.updates(action) is Ok,
    ensures
        shown.updated(monitor.updates(action)->Ok_0).fits(monitor.after(action)),
        monitor.progress_fields(action) matches Some(fields) ==> shown.updated(
            monitor.updates(action)->Ok_0,
        ).position == Some(fields[0]->Int_0 as u64),
{
    reveal_with_fuel(Shown::updated, 4);
    let updates = monitor.updates(action)->Ok_0;
    if updates.len() > 1 {
        assert(updates.drop_first()[0] == updates[1]);
    }
    if updates.len() > 2 {
        assert(updates.drop_first().drop_first()[0] == updates[2]);
    }
}

} // verus!
