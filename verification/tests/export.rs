use esdump::control::{Control, Directive, Outcome, Phase, Signal};
use esdump::error::ScrollError;
use esdump::export::{Action, Event, Export};
use esdump::reply::{decode_open, decode_scroll, OpenReply, ResultPage, ScrollReply};
use esdump::{dump, EsDump};
use serde_json::Value;

fn records(n: usize) -> Vec<Value> {
    let mut all = Vec::new();
    for i in 0..n {
        all.push(Value::from(i as u64));
    }
    all
}

fn opened(total: Option<i64>, n: usize, cursor: &str) -> Event {
    Event::Opened(Ok(OpenReply::Opened {
        total,
        page: ResultPage { records: records(n), cursor: String::from(cursor) },
    }))
}

fn page(n: usize, cursor: &str) -> Event {
    Event::Scrolled(Ok(ScrollReply::Page(ResultPage {
        records: records(n),
        cursor: String::from(cursor),
    })))
}

fn job() -> EsDump {
    EsDump::new("logs").path("./out").scroll_size(2).user("kim").password("pw").query("{}")
}

fn next(export: &mut Export, event: Event) -> Action {
    match export.step(event) {
        Some(action) => action,
        None => panic!("the export did not wait for the event"),
    }
}

/// Drives an export over `events` and counts the writes and compressions.
fn tally(export: &mut Export, events: Vec<Event>) -> (usize, usize) {
    let mut writes = 0;
    let mut compressions = 0;
    for event in events {
        match export.step(event) {
            Some(Action::Write { .. }) => writes += 1,
            Some(Action::Compress { .. }) => compressions += 1,
            _ => {},
        }
    }
    (writes, compressions)
}

#[test]
fn dump_names_the_first_request() {
    let (export, first) = dump(&job());
    match first {
        Action::Open { url, body, user, password } => {
            assert_eq!(url, "http://localhost:9200/logs/_search?scroll=1m&size=2");
            assert_eq!(body, "{}");
            assert_eq!(user, "kim");
            assert_eq!(password, Some(String::from("pw")));
        },
        other => panic!("unexpected action: {:?}", other),
    }
    assert_eq!(export.state().phase, Phase::AwaitOpen);
    assert_eq!(export.outcome(), None);
    assert_eq!(export.current_cursor(), "");
}

#[test]
fn an_absent_index_ends_the_export_without_output() {
    let (mut export, _) = dump(&job());
    let action = next(&mut export, Event::Opened(Ok(OpenReply::IndexNotFound)));
    assert!(matches!(action, Action::Finish(Outcome::NoSuchIndex)));
    assert_eq!(export.outcome(), Some(Outcome::NoSuchIndex));
    let later = vec![Event::Written, Event::Compressed, page(2, "c"), opened(Some(5), 2, "c")];
    assert_eq!(tally(&mut export, later), (0, 0));
}

#[test]
fn no_record_ends_the_export_without_output() {
    for total in [None, Some(0), Some(-1), Some(i64::MIN)] {
        let (mut export, _) = dump(&job());
        let action = next(&mut export, opened(total, 0, "c"));
        assert!(matches!(action, Action::Finish(Outcome::EmptyResult)));
        assert_eq!(export.outcome(), Some(Outcome::EmptyResult));
        assert!(export.step(Event::Written).is_none());
    }
}

#[test]
fn a_failed_first_request_ends_the_export_without_output() {
    for error in [ScrollError::Transport, ScrollError::Decode] {
        let (mut export, _) = dump(&job());
        let action = next(&mut export, Event::Opened(Err(error)));
        assert!(matches!(action, Action::Finish(Outcome::OpenFailed(e)) if e == error));
        assert_eq!(tally(&mut export, vec![Event::Written, page(1, "c")]), (0, 0));
    }
}

#[test]
fn a_first_reply_without_cursor_aborts_before_any_write() {
    let (mut export, _) = dump(&job());
    let reply = decode_open("{\"hits\":{\"total\":5,\"hits\":[{\"_id\":\"a\"}]}}");
    let action = next(&mut export, Event::Opened(reply));
    assert!(matches!(action, Action::Finish(Outcome::OpenFailed(ScrollError::Decode))));
    assert_eq!(export.outcome(), Some(Outcome::OpenFailed(ScrollError::Decode)));
}

#[test]
fn a_single_round_writes_once_and_compresses_right_after() {
    let (mut export, _) = dump(&job());
    match next(&mut export, opened(Some(2), 2, "c")) {
        Action::Write { round, dir, file, text } => {
            assert_eq!(round, 0);
            assert_eq!(dir, "./out");
            assert_eq!(file, "./out/logs_0.data");
            assert_eq!(text, "0\n1\n");
        },
        other => panic!("unexpected action: {:?}", other),
    }
    assert_eq!(export.state().max_round, 1);
    match next(&mut export, Event::Written) {
        Action::Compress { dir, archive } => {
            assert_eq!(dir, "./out");
            assert_eq!(archive, "./out/logs.zip");
        },
        other => panic!("unexpected action: {:?}", other),
    }
    assert!(matches!(next(&mut export, Event::Compressed), Action::Finish(Outcome::Completed)));
    assert_eq!(tally(&mut export, vec![Event::Written, Event::Compressed, page(1, "d")]), (0, 0));
}

#[test]
fn three_rounds_compress_once_after_the_third_page() {
    let (mut export, _) = dump(&job());
    assert!(matches!(next(&mut export, opened(Some(6), 2, "c0")), Action::Write { round: 0, .. }));
    assert_eq!(export.state().max_round, 3);
    match next(&mut export, Event::Written) {
        Action::Scroll { round, url, scroll_id, scroll, user, password } => {
            assert_eq!(round, 1);
            assert_eq!(url, "http://localhost:9200/_search/scroll");
            assert_eq!(scroll_id, "c0");
            assert_eq!(scroll, "1m");
            assert_eq!(user, "kim");
            assert_eq!(password, Some(String::from("pw")));
        },
        other => panic!("unexpected action: {:?}", other),
    }
    match next(&mut export, page(2, "c1")) {
        Action::Write { round, file, text, .. } => {
            assert_eq!(round, 1);
            assert_eq!(file, "./out/logs_1.data");
            assert_eq!(text, "0\n1\n");
        },
        other => panic!("unexpected action: {:?}", other),
    }
    match next(&mut export, Event::Written) {
        Action::Scroll { round, scroll_id, .. } => {
            assert_eq!(round, 2);
            assert_eq!(scroll_id, "c1");
        },
        other => panic!("unexpected action: {:?}", other),
    }
    assert!(matches!(next(&mut export, page(2, "c2")), Action::Write { round: 2, .. }));
    assert!(matches!(next(&mut export, Event::Written), Action::Compress { .. }));
    assert_eq!(export.state().gate.pending(), 0);
    match next(&mut export, Event::Compressed) {
        Action::Scroll { round, scroll_id, .. } => {
            assert_eq!(round, 3);
            assert_eq!(scroll_id, "c2");
        },
        other => panic!("unexpected action: {:?}", other),
    }
    let last = next(&mut export, Event::Scrolled(Ok(ScrollReply::Empty)));
    assert!(matches!(last, Action::Finish(Outcome::Completed)));
}

#[test]
fn a_page_in_the_last_round_does_not_compress_again() {
    let (mut export, _) = dump(&job());
    let events = vec![
        opened(Some(6), 2, "c"),
        Event::Written,
        page(2, "c"),
        Event::Written,
        page(2, "c"),
        Event::Written,
        Event::Compressed,
        page(1, "c"),
        Event::Written,
    ];
    assert_eq!(tally(&mut export, events), (4, 1));
    assert_eq!(export.outcome(), Some(Outcome::Completed));
    assert_eq!(export.state().gate.pending(), 1);
}

#[test]
fn a_gap_round_writes_nothing_and_counts_nothing() {
    let (mut export, _) = dump(&job());
    next(&mut export, opened(Some(6), 2, "c0"));
    next(&mut export, Event::Written);
    let before = export.state().gate;
    let action = next(&mut export, Event::Scrolled(Ok(ScrollReply::Empty)));
    assert!(matches!(action, Action::Scroll { round: 2, .. }));
    assert_eq!(export.state().gate, before);
    assert_eq!(export.state().gate.pending(), 1);
    assert_eq!(export.current_cursor(), "c0");
    assert_eq!(export.failed_rounds(), 0);
}

#[test]
fn a_decoded_empty_continuation_is_a_gap() {
    let (mut export, _) = dump(&job());
    next(&mut export, opened(Some(6), 2, "c0"));
    next(&mut export, Event::Written);
    let reply = decode_scroll("{\"_scroll_id\":\"c1\",\"hits\":{\"hits\":[]}}", "c0");
    let action = next(&mut export, Event::Scrolled(reply));
    assert!(matches!(action, Action::Scroll { round: 2, .. }));
    assert_eq!(export.state().gate.pending(), 1);
}

#[test]
fn a_page_without_records_counts_as_a_gap() {
    let (mut export, _) = dump(&job());
    next(&mut export, opened(Some(6), 2, "c0"));
    next(&mut export, Event::Written);
    let action = next(&mut export, page(0, "c1"));
    assert!(matches!(action, Action::Scroll { round: 2, .. }));
    assert_eq!(export.state().gate.pending(), 1);
}

#[test]
fn a_failed_round_does_not_stop_the_export() {
    let (mut export, _) = dump(&job());
    next(&mut export, opened(Some(6), 2, "c0"));
    next(&mut export, Event::Written);
    let action = next(&mut export, Event::Scrolled(Err(ScrollError::Transport)));
    assert!(matches!(action, Action::Scroll { round: 2, .. }));
    let action = next(&mut export, Event::Scrolled(Err(ScrollError::Decode)));
    assert!(matches!(action, Action::Scroll { round: 3, .. }));
    assert!(matches!(next(&mut export, page(2, "c3")), Action::Write { round: 3, .. }));
    assert!(matches!(next(&mut export, Event::Written), Action::Finish(Outcome::Completed)));
    assert_eq!(export.failed_rounds(), 2);
}

#[test]
fn gaps_can_leave_an_export_without_compression() {
    let (mut export, _) = dump(&job());
    let events = vec![
        opened(Some(6), 2, "c"),
        Event::Written,
        Event::Scrolled(Ok(ScrollReply::Empty)),
        Event::Scrolled(Ok(ScrollReply::Empty)),
        page(2, "c"),
        Event::Written,
    ];
    assert_eq!(tally(&mut export, events), (2, 0));
    assert_eq!(export.outcome(), Some(Outcome::Completed));
}

#[test]
fn a_failed_write_ends_the_export() {
    let (mut export, _) = dump(&job());
    next(&mut export, opened(Some(6), 2, "c0"));
    let action = next(&mut export, Event::WriteFailed);
    assert!(matches!(action, Action::Finish(Outcome::WriteFailed)));
    let (mut later, _) = dump(&job());
    next(&mut later, opened(Some(6), 2, "c0"));
    next(&mut later, Event::Written);
    next(&mut later, page(2, "c1"));
    assert!(matches!(next(&mut later, Event::WriteFailed), Action::Finish(Outcome::WriteFailed)));
    assert_eq!(later.outcome(), Some(Outcome::WriteFailed));
}

#[test]
fn an_event_that_is_not_awaited_changes_nothing() {
    let (mut export, _) = dump(&job());
    let before = export.state();
    assert!(export.step(Event::Written).is_none());
    assert!(export.step(Event::Compressed).is_none());
    assert!(export.step(page(2, "zz")).is_none());
    assert_eq!(export.state(), before);
    assert_eq!(export.current_cursor(), "");
    next(&mut export, opened(Some(6), 2, "c0"));
    assert!(export.step(opened(Some(9), 1, "other")).is_none());
    assert_eq!(export.current_cursor(), "c0");
    assert_eq!(export.state().max_round, 3);
}

#[test]
fn the_first_page_counts_against_the_total() {
    let (mut export, _) = dump(&EsDump::new("logs").scroll_size(50000));
    next(&mut export, opened(Some(120000), 50000, "c"));
    assert_eq!(export.state().max_round, 3);
    assert_eq!(export.state().gate.threshold(), 3);
}

#[test]
fn events_and_actions_map_to_signals_and_directives() {
    assert_eq!(opened(Some(4), 3, "c").to_signal(), Signal::Opened { total: Some(4), first_len: 3 });
    assert_eq!(page(1, "c").to_signal(), Signal::ScrollPage);
    assert_eq!(page(0, "c").to_signal(), Signal::ScrollEmpty);
    assert_eq!(
        Event::Scrolled(Err(ScrollError::Decode)).to_signal(),
        Signal::ScrollFailed(ScrollError::Decode)
    );
    assert_eq!(Event::Opened(Ok(OpenReply::IndexNotFound)).to_signal(), Signal::NoSuchIndex);
    assert_eq!(Event::WriteFailed.to_signal(), Signal::WriteFailed);
    let (_, first) = dump(&job());
    assert_eq!(first.to_directive(), Directive::Open);
    assert_eq!(Action::Finish(Outcome::Completed).to_directive(), Directive::Finish(Outcome::Completed));
}

#[test]
fn control_advances_without_strings() {
    let mut control = Control::start(10);
    assert!(!control.is_done());
    assert_eq!(control.advance(Signal::ScrollPage), None);
    assert_eq!(
        control.advance(Signal::Opened { total: Some(25), first_len: 10 }),
        Some(Directive::Write { round: 0 })
    );
    assert_eq!(control.max_round, 3);
    assert_eq!(control.advance(Signal::Written), Some(Directive::Scroll { round: 1 }));
    assert_eq!(control.advance(Signal::ScrollPage), Some(Directive::Write { round: 1 }));
    assert_eq!(control.advance(Signal::Written), Some(Directive::Scroll { round: 2 }));
    assert_eq!(control.advance(Signal::ScrollPage), Some(Directive::Write { round: 2 }));
    assert_eq!(control.advance(Signal::Written), Some(Directive::Compress));
    assert_eq!(control.advance(Signal::Compressed), Some(Directive::Scroll { round: 3 }));
    assert_eq!(control.advance(Signal::ScrollEmpty), Some(Directive::Finish(Outcome::Completed)));
    assert!(control.is_done());
    assert_eq!(control.advance(Signal::Written), None);
}
