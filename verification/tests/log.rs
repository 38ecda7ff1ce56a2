use ff::address::Url;
use ff::nix_prefetch::{
    fetch, report_in, Action, ActivityType, FetchError, Field, Monitor, ResultType, Style, Update,
};
use ff::text::{join, split_once, strip_prefix};
use ff::writer::LineBuffer;

#[test]
fn numbers_of_activities() {
    assert_eq!(ActivityType::from_code(0), Some(ActivityType::Unknown));
    assert_eq!(ActivityType::from_code(101), Some(ActivityType::FileTransfer));
    assert_eq!(ActivityType::from_code(112), Some(ActivityType::FetchTree));
    assert_eq!(ActivityType::from_code(1), None);
    assert_eq!(ActivityType::from_code(113), None);
    for code in 0..=255 {
        if let Some(activity) = ActivityType::from_code(code) {
            assert_eq!(activity.code(), code);
        }
    }
    assert_eq!((0..=255).filter_map(ActivityType::from_code).count(), 14);
}

#[test]
fn numbers_of_results() {
    assert_eq!(ResultType::from_code(105), Some(ResultType::Progress));
    assert_eq!(ResultType::from_code(99), None);
    assert_eq!(ResultType::from_code(109), None);
    for code in 0..=255 {
        if let Some(result) = ResultType::from_code(code) {
            assert_eq!(result.code(), code);
        }
    }
    assert_eq!((0..=255).filter_map(ResultType::from_code).count(), 9);
}

#[test]
fn fields() {
    assert_eq!(Field::Int(-3).as_int(), Some(-3));
    assert_eq!(Field::Int(-3).as_str(), None);
    assert_eq!(Field::Str("a".to_string()).as_int(), None);
    assert_eq!(Field::Str("a".to_string()).as_str(), Some("a"));
}

#[test]
fn reports_in_lines() {
    assert_eq!(report_in("@nix {}"), Some("{}"));
    assert_eq!(report_in("@nix "), Some(""));
    assert_eq!(report_in("@nix"), None);
    assert_eq!(report_in(" @nix {}"), None);
}

fn shown_for(log: &[&str]) -> (Vec<Update>, Monitor) {
    let mut monitor = Monitor { act_id: None, saved_total: None };
    let mut shown = vec![];
    for line in log {
        if let Some(report) = report_in(line) {
            let action = match report {
                "start" => start(7, ActivityType::FileTransfer),
                "progress" => progress(7, 1, 2),
                other => Action::Msg { msg: other.to_string() },
            };
            shown.extend(monitor.step(action).unwrap());
        }
    }
    (shown, monitor)
}

#[test]
fn other_lines_make_no_difference() {
    let (shown, monitor) = shown_for(&["@nix hello", "@nix start", "@nix progress"]);
    assert_eq!(
        shown,
        vec![
            Update::Message("hello".to_string()),
            Update::Style(Style::Bar),
            Update::Length(2),
            Update::Position(1),
        ]
    );
    let more = shown_for(&[
        "warning: x", "@nix hello", "", "@nix start", " @nix start", "@nix", "@nix progress", "∅",
    ]);
    assert_eq!(more, (shown, monitor));
    assert_eq!(monitor.end(), Ok(()));
    let none = shown_for(&["warning: x", ""]);
    assert_eq!(none.0, vec![]);
    assert_eq!(none.1.end(), Err(FetchError::UnexpectedOutput));
}

#[test]
fn addresses() {
    let url = Url::parse("HTTPS://Example.com/a b/c.tar.gz?x#y").unwrap();
    assert_eq!(url.href, "https://example.com/a%20b/c.tar.gz?x#y");
    assert_eq!(
        url.path_segments,
        Some(vec!["a%20b".to_string(), "c.tar.gz".to_string()])
    );
    assert_eq!(Url::parse("data:x").unwrap().path_segments, None);
    assert_eq!(
        Url::parse("http://example.com").unwrap().path_segments,
        Some(vec![String::new()])
    );
    assert_eq!(Url::parse("example.com/a"), None);
}

#[test]
fn fetches() {
    let url = Url::parse("https://Example.com/a/b.tar.gz").unwrap();
    let packed = fetch(&url, false);
    assert_eq!(
        packed.args,
        vec![
            "store",
            "prefetch-file",
            "--json",
            "--log-format",
            "internal-json",
            "--name",
            "source",
            "https://example.com/a/b.tar.gz",
        ]
    );
    assert_eq!(packed.title, "b.tar.gz");
    assert_eq!(packed.monitor.act_id, None);
    let unpacked = fetch(&url, true);
    assert_eq!(unpacked.args.len(), 9);
    assert_eq!(unpacked.args[7], "--unpack");
    assert_eq!(unpacked.args[8], "https://example.com/a/b.tar.gz");
    let data = Url::parse("data:x").unwrap();
    assert_eq!(fetch(&data, true).title, "data:x");
    let bare = Url::parse("https://example.com/").unwrap();
    assert_eq!(fetch(&bare, true).title, "");
    let empty = Url {
        href: "x".to_string(),
        path_segments: Some(vec![]),
    };
    assert_eq!(fetch(&empty, true).title, "");
}

fn start(id: u64, type_: ActivityType) -> Action {
    Action::Start {
        fields: vec![],
        id,
        level: 3,
        parent: 0,
        text: String::new(),
        type_,
    }
}

fn progress(id: u64, so_far: i64, total: i64) -> Action {
    Action::Result {
        fields: vec![
            Field::Int(so_far),
            Field::Int(total),
            Field::Int(0),
            Field::Int(0),
        ],
        id,
        type_: ResultType::Progress,
    }
}

fn followed(saved_total: Option<i64>) -> Monitor {
    Monitor {
        act_id: Some(7),
        saved_total,
    }
}

#[test]
fn one_transfer_is_followed() {
    let url = Url::parse("https://example.com/a").unwrap();
    let mut monitor = fetch(&url, true).monitor;
    assert_eq!(monitor.end(), Err(FetchError::UnexpectedOutput));
    assert_eq!(monitor.step(progress(7, 1, 2)), Ok(vec![]));
    assert_eq!(monitor.step(start(5, ActivityType::Realise)), Ok(vec![]));
    assert_eq!(monitor.act_id, None);
    assert_eq!(monitor.step(start(7, ActivityType::FileTransfer)), Ok(vec![]));
    assert_eq!(monitor.step(start(8, ActivityType::FileTransfer)), Ok(vec![]));
    assert_eq!(monitor.act_id, Some(7));
    assert_eq!(monitor.step(progress(8, 1, 2)), Ok(vec![]));
    assert_eq!(monitor.step(Action::Stop { id: 7 }), Ok(vec![]));
    assert_eq!(monitor, followed(None));
    assert_eq!(monitor.end(), Ok(()));
}

#[test]
fn messages() {
    for mut monitor in [Monitor { act_id: None, saved_total: None }, followed(Some(3))] {
        let before = monitor;
        let msg = "copying".to_string();
        assert_eq!(
            monitor.step(Action::Msg { msg }),
            Ok(vec![Update::Message("copying".to_string())])
        );
        assert_eq!(monitor, before);
    }
}

#[test]
fn what_is_shown() {
    let mut monitor = followed(None);
    assert_eq!(
        monitor.step(progress(7, 1, 0)),
        Ok(vec![Update::Style(Style::Bytes), Update::Position(1)])
    );
    assert_eq!(monitor.step(progress(7, 2, 0)), Ok(vec![Update::Position(2)]));
    assert_eq!(
        monitor.step(progress(7, 3, 10)),
        Ok(vec![
            Update::Style(Style::Bar),
            Update::Length(10),
            Update::Position(3)
        ])
    );
    assert_eq!(monitor.step(progress(7, 4, 10)), Ok(vec![Update::Position(4)]));
    assert_eq!(
        monitor.step(progress(7, 5, 20)),
        Ok(vec![Update::Length(20), Update::Position(5)])
    );
    assert_eq!(
        monitor.step(progress(7, 6, 0)),
        Ok(vec![Update::Style(Style::Bytes), Update::Position(6)])
    );
    assert_eq!(monitor, followed(Some(0)));
    let mut first = followed(None);
    assert_eq!(
        first.step(progress(7, -1, -2)),
        Ok(vec![
            Update::Style(Style::Bar),
            Update::Length(u64::MAX - 1),
            Update::Position(u64::MAX)
        ])
    );
}

#[test]
fn reports_that_are_not_understood() {
    let report = |fields| Action::Result {
        fields,
        id: 7,
        type_: ResultType::Progress,
    };
    let word = || Field::Str("x".to_string());
    let mut monitor = followed(Some(4));
    assert_eq!(
        monitor.step(report(vec![word()])),
        Err(FetchError::UnexpectedProgress)
    );
    assert_eq!(
        monitor.step(report(vec![word(), word()])),
        Err(FetchError::UnexpectedProgress)
    );
    assert_eq!(
        monitor.step(report(vec![Field::Int(1), word()])),
        Err(FetchError::UnexpectedTotal)
    );
    let other = Action::Result {
        fields: vec![],
        id: 7,
        type_: ResultType::SetPhase,
    };
    assert_eq!(monitor.step(other), Ok(vec![]));
    assert_eq!(monitor, followed(Some(4)));
}

#[test]
fn reports_that_lack_a_value() {
    let report = |id, fields| Action::Result {
        fields,
        id,
        type_: ResultType::Progress,
    };
    let mut monitor = followed(Some(4));
    assert_eq!(monitor.checked_step(report(7, vec![])), None);
    assert_eq!(monitor.checked_step(report(7, vec![Field::Int(1)])), None);
    assert_eq!(monitor, followed(Some(4)));
    assert_eq!(monitor.checked_step(report(8, vec![])), Some(Ok(vec![])));
    assert_eq!(
        monitor.checked_step(report(7, vec![Field::Str("x".to_string())])),
        Some(Err(FetchError::UnexpectedProgress))
    );
    assert_eq!(
        monitor.checked_step(progress(7, 1, 5)),
        Some(Ok(vec![Update::Length(5), Update::Position(1)]))
    );
    assert_eq!(monitor, followed(Some(5)));
}

#[test]
fn messages_of_fetch_errors() {
    assert_eq!(FetchError::UnexpectedOutput.message(), "unexpected nix output");
    assert_eq!(FetchError::UnexpectedProgress.message(), "unexpected progress");
    assert_eq!(FetchError::UnexpectedTotal.message(), "unexpected total");
}

#[test]
fn templates() {
    assert_eq!(
        Style::Bar.template(),
        "{spinner} {msg} {bar} {bytes}/{total_bytes}"
    );
    assert_eq!(Style::Bytes.template(), "{spinner} {msg} {bytes}");
}

#[test]
fn lines_that_have_ended() {
    let mut buffer = LineBuffer::new();
    assert_eq!(buffer.next_line(), None);
    assert_eq!(buffer.write(b"one\ntwo"), 7);
    assert_eq!(buffer.next_line(), Some(Ok("one\n".to_string())));
    assert_eq!(buffer.next_line(), None);
    assert_eq!(buffer.write(b""), 0);
    assert_eq!(buffer.write("\n\n∅\nrest".as_bytes()), 10);
    assert_eq!(buffer.next_line(), Some(Ok("two\n".to_string())));
    assert_eq!(buffer.next_line(), Some(Ok("\n".to_string())));
    assert_eq!(buffer.next_line(), Some(Ok("∅\n".to_string())));
    assert_eq!(buffer.next_line(), None);
}

#[test]
fn lines_that_are_no_text() {
    let mut buffer = LineBuffer::new();
    buffer.write(&[0xff, b'a', b'\n', b'b', b'\n']);
    assert_eq!(buffer.next_line(), Some(Err(vec![0xff, b'a', b'\n'])));
    assert_eq!(buffer.next_line(), Some(Ok("b\n".to_string())));
}

fn lines_of(pieces: &[&[u8]]) -> Vec<String> {
    let mut buffer = LineBuffer::new();
    let mut lines = vec![];
    for piece in pieces {
        buffer.write(piece);
        while let Some(line) = buffer.next_line() {
            lines.push(line.unwrap());
        }
    }
    lines
}

#[test]
fn pieces_make_no_difference() {
    let whole = lines_of(&["a\nb∅c\n\nd".as_bytes()]);
    assert_eq!(whole, vec!["a\n", "b∅c\n", "\n"]);
    let bytes = "a\nb∅c\n\nd".as_bytes();
    for cut in 0..bytes.len() {
        assert_eq!(lines_of(&[&bytes[..cut], &bytes[cut..]]), whole);
    }
}

#[test]
fn texts() {
    assert_eq!(strip_prefix("∅ab", "∅"), Some("ab"));
    assert_eq!(strip_prefix("ab", ""), Some("ab"));
    assert_eq!(strip_prefix("a", "ab"), None);
    assert_eq!(strip_prefix("ba", "ab"), None);
    assert_eq!(split_once("a/b/c", '/'), Some(("a", "b/c")));
    assert_eq!(split_once("/", '/'), Some(("", "")));
    assert_eq!(split_once("∅∅", '/'), None);
    let parts = |all: &[&str]| all.iter().map(|s| s.to_string()).collect::<Vec<_>>();
    assert_eq!(join(&parts(&[]), "\n"), "");
    assert_eq!(join(&parts(&["a"]), "\n"), "a");
    assert_eq!(join(&parts(&["a", "", "b"]), ", "), "a, , b");
}
