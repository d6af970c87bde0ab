use procwatch::channel::{ChannelClosed, HandOff};
use procwatch::event::{normalize, ProcessEvent, RawRecord, RecordParseError};
use procwatch::live_view::LiveView;
use procwatch::render::{record_lines, record_lines_with, Layout};
use procwatch::subscription::{
    deliver, ConnectAction, Delivery, ExhaustedRetries, RetryPolicy, SubscriptionManager,
    SubscriptionState,
};
use procwatch::timestamp::{RawTimestamp, Timestamp};

fn raw_time(
    year: i32,
    month: u32,
    day: u32,
    hour: u32,
    minute: u32,
    second: u32,
    nanosecond: u32,
    offset_minutes: i32,
) -> RawTimestamp {
    RawTimestamp { year, month, day, hour, minute, second, nanosecond, offset_minutes }
}

fn full_record() -> RawRecord {
    RawRecord {
        process_id: Some(4321),
        name: Some("notepad.exe".to_string()),
        executable_path: Some("C:\\Windows\\notepad.exe".to_string()),
        parent_process_id: Some(1000),
        command_line: Some("notepad.exe a.txt".to_string()),
        creation_date: Some(raw_time(2024, 3, 5, 14, 22, 1, 500_000_000, 120)),
    }
}

fn bare_record(pid: u32, name: &str) -> RawRecord {
    RawRecord {
        process_id: Some(pid),
        name: Some(name.to_string()),
        executable_path: None,
        parent_process_id: None,
        command_line: None,
        creation_date: None,
    }
}

fn event(pid: u32, name: &str) -> ProcessEvent {
    normalize(bare_record(pid, name)).unwrap()
}

#[test]
fn normalize_keeps_present_fields() {
    let e = normalize(full_record()).unwrap();
    assert_eq!(e.process_id, 4321);
    assert_eq!(e.name, "notepad.exe");
    assert_eq!(e.executable_path.as_deref(), Some("C:\\Windows\\notepad.exe"));
    assert_eq!(e.parent_process_id, Some(1000));
    assert_eq!(e.command_line.as_deref(), Some("notepad.exe a.txt"));
    let t = e.created_at.unwrap();
    assert_eq!((t.year, t.month, t.day, t.hour, t.minute, t.second), (2024, 3, 5, 14, 22, 1));
    assert_eq!(t.offset_minutes, 120);
}

#[test]
fn normalize_keeps_absent_fields_absent() {
    let e = normalize(bare_record(7, "svc.exe")).unwrap();
    assert_eq!(e.executable_path, None);
    assert_eq!(e.parent_process_id, None);
    assert_eq!(e.command_line, None);
    assert_eq!(e.created_at, None);
}

#[test]
fn normalize_keeps_zero_and_empty_values() {
    let mut r = bare_record(0, "idle");
    r.parent_process_id = Some(0);
    r.command_line = Some(String::new());
    let e = normalize(r).unwrap();
    assert_eq!(e.process_id, 0);
    assert_eq!(e.parent_process_id, Some(0));
    assert_eq!(e.command_line, Some(String::new()));
}

#[test]
fn normalize_each_optional_field_alone() {
    let mut r = bare_record(1, "a");
    r.executable_path = Some("p".to_string());
    let e = normalize(r).unwrap();
    assert!(e.executable_path.is_some() && e.parent_process_id.is_none());
    assert!(e.command_line.is_none() && e.created_at.is_none());
    let mut r = bare_record(1, "a");
    r.creation_date = Some(raw_time(2000, 1, 1, 0, 0, 0, 0, 0));
    let e = normalize(r).unwrap();
    assert!(e.created_at.is_some() && e.executable_path.is_none());
}

#[test]
fn normalize_missing_process_id() {
    let mut r = full_record();
    r.process_id = None;
    assert_eq!(normalize(r), Err(RecordParseError::MissingProcessId));
}

#[test]
fn normalize_missing_name() {
    let mut r = full_record();
    r.name = None;
    assert_eq!(normalize(r), Err(RecordParseError::MissingName));
}

#[test]
fn normalize_missing_both_reports_process_id() {
    let mut r = full_record();
    r.process_id = None;
    r.name = None;
    assert_eq!(normalize(r), Err(RecordParseError::MissingProcessId));
}

#[test]
fn normalize_empty_name() {
    assert_eq!(normalize(bare_record(5, "")), Err(RecordParseError::EmptyName));
}

#[test]
fn normalize_invalid_creation_dates() {
    for d in [
        raw_time(2023, 2, 29, 0, 0, 0, 0, 0),
        raw_time(2024, 13, 1, 0, 0, 0, 0, 0),
        raw_time(2024, 4, 31, 0, 0, 0, 0, 0),
        raw_time(2024, 1, 1, 24, 0, 0, 0, 0),
        raw_time(2024, 1, 1, 0, 60, 0, 0, 0),
        raw_time(2024, 1, 1, 0, 0, 60, 0, 0),
        raw_time(2024, 1, 1, 0, 0, 0, 0, 1440),
        raw_time(10000, 1, 1, 0, 0, 0, 0, 0),
        raw_time(-1, 1, 1, 0, 0, 0, 0, 0),
    ] {
        let mut r = bare_record(9, "x");
        r.creation_date = Some(d);
        assert_eq!(normalize(r), Err(RecordParseError::InvalidCreationDate));
    }
}

#[test]
fn timestamp_leap_day_and_leap_second() {
    let t = Timestamp::from_raw(&raw_time(2024, 2, 29, 23, 59, 59, 1_500_000_000, 0)).unwrap();
    assert_eq!(t.second, 59);
    assert_eq!(t.format(), "2024-02-29 23:59:59 +0000");
    assert!(Timestamp::from_raw(&raw_time(1900, 2, 29, 0, 0, 0, 0, 0)).is_none());
    assert!(Timestamp::from_raw(&raw_time(2000, 2, 29, 0, 0, 0, 0, 0)).is_some());
    assert!(Timestamp::from_raw(&raw_time(2000, 2, 1, 0, 0, 0, 2_000_000_000, 0)).is_none());
}

#[test]
fn timestamp_round_trip() {
    let mut r = bare_record(1, "a");
    r.creation_date = Some(raw_time(2024, 3, 5, 14, 22, 1, 0, 120));
    let t = normalize(r).unwrap().created_at.unwrap();
    assert_eq!(t.format(), "2024-03-05 14:22:01 +0200");
}

#[test]
fn timestamp_truncates_fraction() {
    let t = Timestamp::from_raw(&raw_time(2019, 1, 13, 20, 5, 17, 999_999_999, -180)).unwrap();
    assert_eq!(t.format(), "2019-01-13 20:05:17 -0300");
}

#[test]
fn timestamp_offsets_and_small_years() {
    let t = Timestamp::from_raw(&raw_time(7, 12, 31, 0, 0, 0, 0, -330)).unwrap();
    assert_eq!(t.format(), "0007-12-31 00:00:00 -0530");
    let t = Timestamp::from_raw(&raw_time(9999, 1, 2, 3, 4, 5, 0, 1439)).unwrap();
    assert_eq!(t.format(), "9999-01-02 03:04:05 +2359");
}

#[test]
fn end_to_end_stream_record() {
    let mut r = bare_record(4321, "notepad.exe");
    r.parent_process_id = Some(1000);
    let mut channel = HandOff::new();
    assert_eq!(deliver(r, &mut channel), Delivery::Delivered);
    let e = channel.take_next().unwrap();
    let lines = record_lines(Layout::Stream, &e);
    assert_eq!(
        lines,
        vec![
            "============NEW PROCESS============",
            "PID:        4321",
            "Name:       notepad.exe",
            "Executable: \"None\"",
            "Parent PID: 1000",
            "Command:    \"None\"",
            "Created:    N/A",
        ]
    );
}

#[test]
fn stream_record_with_every_field() {
    let e = normalize(full_record()).unwrap();
    let lines = record_lines(Layout::Stream, &e);
    assert_eq!(lines[3], "Executable: \"C:\\\\Windows\\\\notepad.exe\"");
    assert_eq!(lines[5], "Command:    \"notepad.exe a.txt\"");
    assert_eq!(lines[6], "Created:    2024-03-05 14:22:01 +0200");
}

#[test]
fn stream_record_without_parent_shows_zero() {
    let lines = record_lines(Layout::Stream, &event(3, "x"));
    assert_eq!(lines[4], "Parent PID: 0");
}

#[test]
fn quoting_escapes_the_text() {
    let mut r = bare_record(1, "a");
    r.command_line = Some("say \"hi\"".to_string());
    let lines = record_lines(Layout::LiveView, &normalize(r).unwrap());
    assert_eq!(lines[4], "Command Line: \"say \\\"hi\\\"\"");
}

#[test]
fn record_lines_with_given_quotes() {
    let e = event(u32::MAX, "big");
    let lines = record_lines_with(Layout::LiveView, &e, "E", "C");
    assert_eq!(
        lines,
        vec![
            "PID: 4294967295",
            "Name: big",
            "Executable: E",
            "Parent PID: 0",
            "Command Line: C",
            "Created: N/A",
        ]
    );
}

#[test]
fn handoff_drain_keeps_order_across_drains() {
    let mut channel = HandOff::new();
    let mut received: Vec<ProcessEvent> = Vec::new();
    let sent: Vec<ProcessEvent> = (0..10).map(|i| event(i, "p")).collect();
    for (i, e) in sent.iter().enumerate() {
        assert_eq!(channel.push(e.clone()), Ok(()));
        if i % 3 == 2 {
            received.extend(channel.drain_all());
        }
    }
    received.extend(channel.drain_all());
    assert_eq!(received, sent);
    assert_eq!(channel.len(), 0);
    assert!(channel.drain_all().is_empty());
}

#[test]
fn handoff_take_next_is_fifo() {
    let mut channel = HandOff::new();
    assert_eq!(channel.take_next(), None);
    channel.push(event(1, "a")).unwrap();
    channel.push(event(2, "b")).unwrap();
    assert_eq!(channel.take_next().map(|e| e.process_id), Some(1));
    assert_eq!(channel.take_next().map(|e| e.process_id), Some(2));
    assert_eq!(channel.take_next(), None);
}

#[test]
fn handoff_close_refuses_pushes() {
    let mut channel = HandOff::new();
    assert!(!channel.is_closed());
    channel.close();
    assert!(channel.is_closed());
    assert_eq!(channel.push(event(1, "a")), Err(ChannelClosed));
    assert_eq!(channel.len(), 0);
    assert_eq!(deliver(bare_record(2, "b"), &mut channel), Delivery::Stop);
}

#[test]
fn deliver_drops_bad_records() {
    let mut channel = HandOff::new();
    let mut r = bare_record(1, "a");
    r.process_id = None;
    assert_eq!(deliver(r, &mut channel), Delivery::Dropped(RecordParseError::MissingProcessId));
    let mut r = bare_record(1, "a");
    r.name = None;
    assert_eq!(deliver(r, &mut channel), Delivery::Dropped(RecordParseError::MissingName));
    assert_eq!(channel.len(), 0);
    assert_eq!(deliver(bare_record(2, "b"), &mut channel), Delivery::Delivered);
    assert_eq!(channel.len(), 1);
}

fn run(policy: RetryPolicy, outcomes: &[bool]) -> (SubscriptionManager, Vec<ConnectAction>) {
    let mut m = SubscriptionManager::new(policy);
    let mut actions = vec![m.begin()];
    let mut next = outcomes.iter();
    while m.state() == SubscriptionState::Connecting {
        let ok = *next.next().unwrap();
        actions.push(m.record_outcome(ok));
    }
    (m, actions)
}

#[test]
fn establish_succeeds_after_failures() {
    let policy = RetryPolicy { max_attempts: 5, retry_delay_ms: 250 };
    let (m, actions) = run(policy, &[false, false, false, true]);
    assert_eq!(m.state(), SubscriptionState::Subscribed);
    assert_eq!(m.attempts(), 4);
    assert_eq!(
        actions,
        vec![
            ConnectAction::Attempt,
            ConnectAction::WaitThenAttempt(250),
            ConnectAction::WaitThenAttempt(250),
            ConnectAction::WaitThenAttempt(250),
            ConnectAction::Monitor,
        ]
    );
}

#[test]
fn establish_succeeds_on_last_allowed_attempt() {
    let policy = RetryPolicy { max_attempts: 3, retry_delay_ms: 1 };
    let (m, actions) = run(policy, &[false, false, true]);
    assert_eq!(m.state(), SubscriptionState::Subscribed);
    assert_eq!(actions.last(), Some(&ConnectAction::Monitor));
}

#[test]
fn establish_gives_up_after_max_attempts() {
    let policy = RetryPolicy { max_attempts: 4, retry_delay_ms: 10 };
    let (m, actions) = run(policy, &[false; 10]);
    assert_eq!(m.state(), SubscriptionState::Exhausted);
    let attempts = actions
        .iter()
        .filter(|a| matches!(a, ConnectAction::Attempt | ConnectAction::WaitThenAttempt(_)))
        .count();
    assert_eq!(attempts, 4);
    assert_eq!(actions.last(), Some(&ConnectAction::GiveUp(ExhaustedRetries { attempts: 4 })));
}

#[test]
fn establish_with_no_attempts_allowed() {
    let policy = RetryPolicy { max_attempts: 0, retry_delay_ms: 10 };
    let (m, actions) = run(policy, &[]);
    assert_eq!(m.state(), SubscriptionState::Exhausted);
    assert_eq!(actions, vec![ConnectAction::GiveUp(ExhaustedRetries { attempts: 0 })]);
}

#[test]
fn stream_loss_returns_to_disconnected() {
    let (mut m, _) = run(RetryPolicy::standard(), &[true]);
    m.stream_lost();
    assert_eq!(m.state(), SubscriptionState::Disconnected);
    assert_eq!(m.begin(), ConnectAction::Attempt);
    assert_eq!(m.attempts(), 1);
}

#[test]
fn standard_policy() {
    let p = RetryPolicy::standard();
    assert_eq!((p.max_attempts, p.retry_delay_ms), (1000, 1000));
    assert_eq!(RetryPolicy::default(), p);
    assert_eq!(SubscriptionManager::new(p).policy(), p);
}

#[test]
fn live_view_accumulates_across_ticks() {
    let mut channel = HandOff::new();
    let mut view = LiveView::new();
    let (e1, e2, e3) = (event(1, "one"), event(2, "two"), event(3, "three"));
    channel.push(e1.clone()).unwrap();
    channel.push(e2.clone()).unwrap();
    assert_eq!(view.refresh(&mut channel), 2);
    channel.push(e3.clone()).unwrap();
    assert_eq!(view.refresh(&mut channel), 1);
    assert_eq!(view.refresh(&mut channel), 0);
    assert_eq!(view.len(), 3);
    assert_eq!(view.event(0), &e1);
    assert_eq!(view.event(1), &e2);
    assert_eq!(view.event(2), &e3);
    assert_eq!(view.labels(2)[1], "Name: three");
}
