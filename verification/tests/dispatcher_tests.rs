use post_dispatch::clock::ZonedInstant;
use post_dispatch::dispatcher::{Action, BusError, Dispatcher, Event, FailedStep, Outcome};
use post_dispatch::model::Post;
use post_dispatch::selector::Source;
use post_dispatch::settings::{MissingSetting, Settings};
use post_dispatch::store::{Attr, Record, StoreError};

// 2024-03-05T14:22:00Z
const NOW: ZonedInstant = ZonedInstant { epoch_seconds: 1_709_648_520, offset_seconds: 0 };

/// One stored item: the attributes it has, in plain values.
#[derive(Clone, Debug, PartialEq)]
struct Row {
    uuid: Option<String>,
    post: Option<String>,
    time: Option<String>,
    recurring: Option<bool>,
}

fn scheduled_row(uuid: &str, post: &str, time: &str, recurring: bool) -> Row {
    Row {
        uuid: Some(uuid.to_string()),
        post: Some(post.to_string()),
        time: Some(time.to_string()),
        recurring: Some(recurring),
    }
}

fn backlog_row(uuid: &str, post: &str) -> Row {
    Row { uuid: Some(uuid.to_string()), post: Some(post.to_string()), time: None, recurring: None }
}

fn record_of(row: &Row) -> Record {
    let mut record = Record::new();
    if let Some(uuid) = &row.uuid {
        record.insert("uuid".to_string(), Attr::Text(uuid.clone()));
    }
    if let Some(post) = &row.post {
        record.insert("post".to_string(), Attr::Text(post.clone()));
    }
    if let Some(time) = &row.time {
        record.insert("time".to_string(), Attr::Text(time.clone()));
    }
    if let Some(recurring) = row.recurring {
        record.insert("recurring".to_string(), Attr::Flag(recurring));
    }
    record
}

/// A store and a bus in memory, with switches that make a call fail.
#[derive(Clone, Debug, Default, PartialEq)]
struct World {
    scheduled: Vec<Row>,
    immediate: Vec<Row>,
    published: Vec<(String, String)>,
    fail_scan_scheduled: bool,
    fail_scan_immediate: bool,
    fail_publish: bool,
    fail_delete: bool,
    calls: Vec<String>,
}

impl World {
    fn answer(&mut self, action: Action) -> Result<Event, Outcome> {
        match action {
            Action::ScanScheduled => {
                self.calls.push("scan scheduled".to_string());
                Ok(Event::ScheduledScanned(if self.fail_scan_scheduled {
                    Err(StoreError { message: "scheduled scan refused".to_string() })
                } else {
                    Ok(self.scheduled.iter().map(record_of).collect())
                }))
            }
            Action::ScanImmediate { limit } => {
                self.calls.push(format!("scan immediate {}", limit));
                Ok(Event::ImmediateScanned(if self.fail_scan_immediate {
                    Err(StoreError { message: "immediate scan refused".to_string() })
                } else {
                    Ok(self.immediate.iter().take(limit as usize).map(record_of).collect())
                }))
            }
            Action::Publish { message } => {
                self.calls.push(format!("publish {}", message.uuid));
                Ok(Event::Published(if self.fail_publish {
                    Err(BusError { message: "bus unreachable".to_string() })
                } else {
                    self.published.push((message.uuid, message.post));
                    Ok(())
                }))
            }
            Action::Delete { source, key } => {
                self.calls.push(format!("delete {:?} {}", source, key));
                Ok(Event::Deleted(if self.fail_delete {
                    Err(StoreError { message: "delete refused".to_string() })
                } else {
                    let rows = match source {
                        Source::Scheduled => &mut self.scheduled,
                        Source::Immediate => &mut self.immediate,
                    };
                    rows.retain(|row| row.uuid.as_deref() != Some(key.as_str()));
                    Ok(())
                }))
            }
            Action::Stop { outcome } => Err(outcome),
        }
    }

    /// One invocation, as the caller of the dispatcher runs it.
    fn invoke(&mut self, now: ZonedInstant) -> Outcome {
        let (mut dispatcher, mut action) = Dispatcher::start(now);
        loop {
            match self.answer(action) {
                Ok(event) => {
                    let next = dispatcher.step(event);
                    dispatcher = next.0;
                    action = next.1;
                }
                Err(outcome) => {
                    assert!(dispatcher.is_finished());
                    return outcome;
                }
            }
        }
    }
}

fn sent(source: Source, deleted: bool) -> Outcome {
    Outcome::Sent { source, deleted }
}

fn failed(step: FailedStep, message: &str) -> Outcome {
    Outcome::Failed { step, message: message.to_string() }
}

#[test]
fn invocation_begins_with_the_scheduled_scan() {
    let (dispatcher, action) = Dispatcher::start(NOW);
    assert_eq!(action, Action::ScanScheduled);
    assert!(!dispatcher.is_finished());
}

#[test]
fn due_item_is_published_and_deleted() {
    let mut world = World {
        scheduled: vec![scheduled_row("s1", "Hello", "2024-01-01T14:00:00Z", false)],
        ..World::default()
    };
    let outcome = world.invoke(NOW);
    assert_eq!(outcome, sent(Source::Scheduled, true));
    assert_eq!(world.published, vec![("s1".to_string(), "Hello".to_string())]);
    assert_eq!(world.scheduled, vec![]);
    assert_eq!(world.calls, vec!["scan scheduled", "publish s1", "delete Scheduled s1"]);
}

#[test]
fn backlog_item_is_taken_when_nothing_is_due() {
    let mut world = World { immediate: vec![backlog_row("p1", "World")], ..World::default() };
    let outcome = world.invoke(NOW);
    assert_eq!(outcome, sent(Source::Immediate, true));
    assert_eq!(world.published, vec![("p1".to_string(), "World".to_string())]);
    assert_eq!(world.immediate, vec![]);
    assert_eq!(
        world.calls,
        vec!["scan scheduled", "scan immediate 1", "publish p1", "delete Immediate p1"]
    );
}

#[test]
fn item_that_does_not_recur_is_gone_after_dispatch() {
    let other = scheduled_row("s2", "Later", "2024-01-01T18:00:00Z", false);
    let mut world = World {
        scheduled: vec![
            other.clone(),
            scheduled_row("s1", "Hello", "2024-01-01T14:00:00Z", false),
        ],
        immediate: vec![backlog_row("p1", "World")],
        ..World::default()
    };
    assert_eq!(world.invoke(NOW), sent(Source::Scheduled, true));
    assert_eq!(world.scheduled, vec![other]);
    assert_eq!(world.immediate, vec![backlog_row("p1", "World")]);
}

#[test]
fn recurring_item_stays_and_fires_again() {
    let item = scheduled_row("r1", "Daily", "2023-06-01T14:30:00Z", true);
    let mut world = World { scheduled: vec![item.clone()], ..World::default() };
    assert_eq!(world.invoke(NOW), sent(Source::Scheduled, false));
    assert_eq!(world.scheduled, vec![item.clone()]);
    assert_eq!(world.calls, vec!["scan scheduled", "publish r1"]);
    // A day later, in the same hour, it fires again.
    let tomorrow = ZonedInstant { epoch_seconds: NOW.epoch_seconds + 86_400, offset_seconds: 0 };
    assert_eq!(world.invoke(tomorrow), sent(Source::Scheduled, false));
    // And it fires again on a second invocation within the same hour.
    assert_eq!(world.invoke(tomorrow), sent(Source::Scheduled, false));
    assert_eq!(world.published.len(), 3);
    assert_eq!(world.scheduled, vec![item]);
}

#[test]
fn nothing_to_send_touches_nothing() {
    let mut world = World {
        scheduled: vec![scheduled_row("s2", "Later", "2024-01-01T18:00:00Z", false)],
        ..World::default()
    };
    let before = world.clone();
    assert_eq!(world.invoke(NOW), Outcome::NothingToSend);
    assert_eq!(world.scheduled, before.scheduled);
    assert_eq!(world.published, vec![]);
    assert_eq!(world.calls, vec!["scan scheduled", "scan immediate 1"]);

    let mut empty = World::default();
    assert_eq!(empty.invoke(NOW), Outcome::NothingToSend);
    assert_eq!(empty.calls, vec!["scan scheduled", "scan immediate 1"]);
}

#[test]
fn failed_publish_keeps_the_item() {
    let item = scheduled_row("s1", "Hello", "2024-01-01T14:00:00Z", false);
    let mut world =
        World { scheduled: vec![item.clone()], fail_publish: true, ..World::default() };
    assert_eq!(world.invoke(NOW), failed(FailedStep::Publish, "bus unreachable"));
    assert_eq!(world.scheduled, vec![item]);
    assert_eq!(world.published, vec![]);
    assert_eq!(world.calls, vec!["scan scheduled", "publish s1"]);

    let mut world = World {
        immediate: vec![backlog_row("p1", "World")],
        fail_publish: true,
        ..World::default()
    };
    assert_eq!(world.invoke(NOW), failed(FailedStep::Publish, "bus unreachable"));
    assert_eq!(world.immediate, vec![backlog_row("p1", "World")]);
    // The item is there for the next invocation.
    world.fail_publish = false;
    assert_eq!(world.invoke(NOW), sent(Source::Immediate, true));
    assert_eq!(world.published, vec![("p1".to_string(), "World".to_string())]);
}

#[test]
fn failed_delete_is_reported_and_the_message_stays_published() {
    let mut world = World {
        immediate: vec![backlog_row("p1", "World")],
        fail_delete: true,
        ..World::default()
    };
    assert_eq!(world.invoke(NOW), failed(FailedStep::Delete, "delete refused"));
    assert_eq!(world.published, vec![("p1".to_string(), "World".to_string())]);
    assert_eq!(world.immediate, vec![backlog_row("p1", "World")]);
    // The next invocation sends the item a second time.
    world.fail_delete = false;
    assert_eq!(world.invoke(NOW), sent(Source::Immediate, true));
    assert_eq!(world.published.len(), 2);
}

#[test]
fn failed_scheduled_scan_falls_back_to_the_backlog() {
    let mut world = World {
        scheduled: vec![scheduled_row("s1", "Hello", "2024-01-01T14:00:00Z", false)],
        immediate: vec![backlog_row("p1", "World")],
        fail_scan_scheduled: true,
        ..World::default()
    };
    assert_eq!(world.invoke(NOW), sent(Source::Immediate, true));
    assert_eq!(world.published, vec![("p1".to_string(), "World".to_string())]);
    assert_eq!(world.scheduled.len(), 1);
}

#[test]
fn undecodable_scheduled_record_means_nothing_is_due() {
    let mut broken = scheduled_row("s0", "Broken", "2024-01-01T14:00:00Z", false);
    broken.recurring = None;
    let mut world = World {
        scheduled: vec![scheduled_row("s1", "Hello", "2024-01-01T14:00:00Z", false), broken],
        immediate: vec![backlog_row("p1", "World")],
        ..World::default()
    };
    assert_eq!(world.invoke(NOW), sent(Source::Immediate, true));
    assert_eq!(world.scheduled.len(), 2);
}

#[test]
fn failed_backlog_scan_is_fatal() {
    let mut world = World {
        immediate: vec![backlog_row("p1", "World")],
        fail_scan_immediate: true,
        ..World::default()
    };
    assert_eq!(world.invoke(NOW), failed(FailedStep::Scan, "immediate scan refused"));
    assert_eq!(world.published, vec![]);
    assert_eq!(world.calls, vec!["scan scheduled", "scan immediate 1"]);
}

#[test]
fn undecodable_backlog_record_is_fatal() {
    let mut world = World {
        immediate: vec![Row { uuid: Some("p1".to_string()), post: None, time: None, recurring: None }],
        ..World::default()
    };
    assert_eq!(world.invoke(NOW), failed(FailedStep::Scan, "Missing 'post' attribute"));
    assert_eq!(world.published, vec![]);
    assert_eq!(world.immediate.len(), 1);
}

#[test]
fn report_out_of_turn_ends_the_invocation() {
    let (dispatcher, _) = Dispatcher::start(NOW);
    let (dispatcher, action) = dispatcher.step(Event::Published(Ok(())));
    assert_eq!(
        action,
        Action::Stop { outcome: failed(FailedStep::Protocol, "unexpected event") }
    );
    assert!(dispatcher.is_finished());
    let (dispatcher, action) = dispatcher.step(Event::ScheduledScanned(Ok(vec![])));
    assert_eq!(
        action,
        Action::Stop { outcome: failed(FailedStep::Protocol, "unexpected event") }
    );
    assert!(dispatcher.is_finished());

    let (dispatcher, _) = Dispatcher::start(NOW);
    let (dispatcher, action) = dispatcher.step(Event::ScheduledScanned(Ok(vec![])));
    assert_eq!(action, Action::ScanImmediate { limit: 1 });
    let (_, action) = dispatcher.step(Event::Deleted(Ok(())));
    assert_eq!(
        action,
        Action::Stop { outcome: failed(FailedStep::Protocol, "unexpected event") }
    );
}

#[test]
fn steps_of_a_dispatch_one_by_one() {
    let (dispatcher, action) = Dispatcher::start(NOW);
    assert_eq!(action, Action::ScanScheduled);
    let row = scheduled_row("s1", "Hello", "2024-01-01T14:00:00Z", false);
    let (dispatcher, action) = dispatcher.step(Event::ScheduledScanned(Ok(vec![record_of(&row)])));
    assert_eq!(
        action,
        Action::Publish { message: Post { uuid: "s1".to_string(), post: "Hello".to_string() } }
    );
    assert!(!dispatcher.is_finished());
    let (dispatcher, action) = dispatcher.step(Event::Published(Ok(())));
    assert_eq!(action, Action::Delete { source: Source::Scheduled, key: "s1".to_string() });
    let (dispatcher, action) = dispatcher.step(Event::Deleted(Ok(())));
    assert_eq!(action, Action::Stop { outcome: sent(Source::Scheduled, true) });
    assert!(dispatcher.is_finished());
}

#[test]
fn outcomes_are_reported_in_words() {
    assert_eq!(Outcome::NothingToSend.message(), "Nothing to send");
    assert_eq!(
        sent(Source::Scheduled, true).message(),
        "Success! Sent a scheduled post and deleted it"
    );
    assert_eq!(
        sent(Source::Scheduled, false).message(),
        "Success! Sent a recurring scheduled post and kept it"
    );
    assert_eq!(
        sent(Source::Immediate, true).message(),
        "Success! Sent a post from the backlog and deleted it"
    );
    assert_eq!(
        sent(Source::Immediate, false).message(),
        "Success! Sent a post from the backlog and kept it"
    );
    assert_eq!(failed(FailedStep::Scan, "no store").message(), "Failed: no store");
    assert_eq!(failed(FailedStep::Protocol, "unexpected event").message(), "Failed: unexpected event");
    assert_eq!(failed(FailedStep::Publish, "no bus").message(), "Failed :/ no bus");
    assert_eq!(failed(FailedStep::Delete, "no delete").message(), "Failed :/ no delete");
    assert!(failed(FailedStep::Delete, "").is_failure());
    assert!(!Outcome::NothingToSend.is_failure());
    assert!(!sent(Source::Immediate, true).is_failure());
}

#[test]
fn test_send_posts() {
    let mut world = World {
        scheduled: vec![scheduled_row("s9", "Evening", "2024-01-01T20:00:00Z", true)],
        immediate: vec![backlog_row("p1", "World"), backlog_row("p2", "Again")],
        ..World::default()
    };
    let resp = world.invoke(NOW).message();
    println!("Response: {:?}", resp);
    assert!(resp.starts_with("Success!"));
    assert_eq!(world.immediate, vec![backlog_row("p2", "Again")]);
}

#[test]
fn settings_name_the_first_missing_value() {
    let some = |s: &str| Some(s.to_string());
    assert_eq!(Settings::resolve(None, None, None), Err(MissingSetting::TableName));
    assert_eq!(Settings::resolve(None, some("s"), some("t")), Err(MissingSetting::TableName));
    assert_eq!(
        Settings::resolve(some("p"), None, None),
        Err(MissingSetting::ScheduledTableName)
    );
    assert_eq!(Settings::resolve(some("p"), some("s"), None), Err(MissingSetting::Topic));
    let settings = Settings::resolve(some("p"), some("s"), some("t")).unwrap();
    assert_eq!(settings.table_name, "p");
    assert_eq!(settings.scheduled_table_name, "s");
    assert_eq!(settings.topic, "t");
    assert_eq!(settings.collection(Source::Immediate), "p");
    assert_eq!(settings.collection(Source::Scheduled), "s");
    assert_eq!(MissingSetting::TableName.message(), "TABLE_NAME not set");
    assert_eq!(MissingSetting::ScheduledTableName.message(), "SCHEDULED_TABLE_NAME not set");
    assert_eq!(MissingSetting::Topic.message(), "No SNS_ARN provided.");
}
