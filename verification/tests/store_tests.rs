use keycounter::heatmap::count_with_upper;
use keycounter::settings::{body_flag, close_action_of, close_action_request, flag_value};
use keycounter::trend::daily_totals;
use keycounter::writer::{waits_for_event, writer_step, Received, WriterAction};

fn s(x: &str) -> String {
    x.to_string()
}

#[test]
fn daily_totals_merge() {
    let keys = vec![(s("2026-08-02"), 10), (s("2026-08-01"), 4)];
    let mouse = vec![
        (s("2026-08-01"), s("click"), 3),
        (s("2026-08-01"), s("scroll"), 7),
        (s("2026-08-03"), s("scroll"), 2),
        (s("2026-08-04"), s("drag"), 9),
    ];
    let dist = vec![(s("2026-08-02"), 12.5f64), (s("2026-08-05"), 1.0)];
    let rows = daily_totals(&keys, &mouse, &dist, 0.0);
    assert_eq!(
        rows,
        vec![
            (s("2026-08-01"), 4, 3, 7, 0.0),
            (s("2026-08-02"), 10, 0, 0, 12.5),
            (s("2026-08-03"), 0, 0, 2, 0.0),
            (s("2026-08-05"), 0, 0, 0, 1.0),
        ]
    );
}

#[test]
fn daily_totals_add_repeated_days() {
    let keys = vec![(s("d"), 4), (s("d"), 5)];
    let mouse = vec![(s("d"), s("click"), i64::MAX), (s("d"), s("click"), 1)];
    let rows = daily_totals(&keys, &mouse, &Vec::<(String, i64)>::new(), 0);
    assert_eq!(rows, vec![(s("d"), 9, i64::MAX, 0, 0)]);
    assert!(daily_totals(&Vec::new(), &Vec::new(), &Vec::<(String, i64)>::new(), 0).is_empty());
}

#[test]
fn writer_decisions() {
    assert!(waits_for_event(0, false));
    assert!(!waits_for_event(1, false));
    assert!(!waits_for_event(0, true));
    assert_eq!(writer_step(0, Received::Event, false), WriterAction::Add);
    assert_eq!(writer_step(498, Received::Event, false), WriterAction::Add);
    assert_eq!(writer_step(499, Received::Event, false), WriterAction::AddAndFlush);
    assert_eq!(writer_step(499, Received::Event, true), WriterAction::Add);
    assert_eq!(writer_step(0, Received::Nothing, false), WriterAction::Wait);
    assert_eq!(writer_step(3, Received::Nothing, false), WriterAction::Flush);
    assert_eq!(writer_step(3, Received::Nothing, true), WriterAction::Finish);
    assert_eq!(writer_step(0, Received::Closed, false), WriterAction::Finish);
    assert_eq!(writer_step(7, Received::Closed, true), WriterAction::Finish);
}

#[test]
fn settings_file_close_action() {
    assert_eq!(close_action_of(Some(r#"{"close_action": "exit"}"#)), "exit");
    assert_eq!(close_action_of(Some(r#"{"close_action": "minimize", "x": 1}"#)), "minimize");
    assert_eq!(close_action_of(Some(r#"{"close_action": "quit"}"#)), "ask");
    assert_eq!(close_action_of(Some(r#"{"close_action": 3}"#)), "ask");
    assert_eq!(close_action_of(Some("not json")), "ask");
    assert_eq!(close_action_of(Some("[1, 2]")), "ask");
    assert_eq!(close_action_of(None), "ask");
}

#[test]
fn request_bodies() {
    assert!(body_flag(r#"{"paused": true}"#, "paused"));
    assert!(!body_flag(r#"{"paused": false}"#, "paused"));
    assert!(!body_flag(r#"{"paused": "true"}"#, "paused"));
    assert!(!body_flag("", "paused"));
    assert!(body_flag(r#"{"enabled": true}"#, "enabled"));
    assert!(!body_flag(r#"{"enabled": true}"#, "paused"));
    assert!(flag_value(Some(true)) && !flag_value(Some(false)) && !flag_value(None));
    assert_eq!(close_action_request(r#"{"close_action": "exit"}"#), Some(s("exit")));
    assert_eq!(close_action_request(r#"{"close_action": "bogus"}"#), None);
    assert_eq!(close_action_request("{}"), None);
}

#[test]
fn count_with_given_upper_case() {
    let counts = vec![(s("A"), 5), (s("a"), 2)];
    assert_eq!(count_with_upper(&counts, "a", "A"), 2);
    assert_eq!(count_with_upper(&counts, "b", "A"), 5);
    assert_eq!(count_with_upper(&counts, "b", "B"), 0);
}

#[test]
fn writer_run_keeps_every_event() {
    // Drive the decisions the way the writer loop does, with events 0..1203 queued,
    // a quiet queue after event 700, and a stop requested after event 1000.
    let mut batches: Vec<Vec<u32>> = Vec::new();
    let mut batch: Vec<u32> = Vec::new();
    let mut stopping = false;
    let mut next = 0u32;
    let mut quiet_once = true;
    loop {
        if batch.is_empty() && next >= 1000 {
            stopping = true;
        }
        let _ = waits_for_event(batch.len(), stopping);
        let got = if next == 701 && quiet_once {
            quiet_once = false;
            Received::Nothing
        } else if next < 1203 {
            Received::Event
        } else {
            Received::Nothing
        };
        let event = if got == Received::Event { Some(next) } else { None };
        if event.is_some() {
            next += 1;
        }
        match writer_step(batch.len(), got, stopping) {
            WriterAction::Add => batch.extend(event),
            WriterAction::AddAndFlush => {
                batch.extend(event);
                batches.push(std::mem::take(&mut batch));
            }
            WriterAction::Flush => batches.push(std::mem::take(&mut batch)),
            WriterAction::Wait => {}
            WriterAction::Finish => {
                if !batch.is_empty() {
                    batches.push(std::mem::take(&mut batch));
                }
                break;
            }
        }
    }
    let all: Vec<u32> = batches.concat();
    assert_eq!(all, (0..1203).collect::<Vec<u32>>());
    assert!(batches.iter().all(|b| !b.is_empty()));
    assert!(batches[..batches.len() - 1].iter().all(|b| b.len() <= 500));
}
