use juli::reconciler::{Action, Event, Reconciler};
use juli::response::{RawAnalysis, RawReminder};
use juli::store::{LogEntry, Reminder};

/// An in-memory store, with a scripted model, that answers the reconciler.
struct Host {
    reminders: Vec<Reminder>,
    next_id: i64,
    last_text: Option<String>,
    logs: Vec<LogEntry>,
    calls: usize,
    answer: Result<String, String>,
    prompts: Vec<String>,
}

impl Host {
    fn new(answer: Result<&str, &str>) -> Host {
        Host {
            reminders: Vec::new(),
            next_id: 1,
            last_text: None,
            logs: Vec::new(),
            calls: 0,
            answer: answer.map(|s| s.to_string()).map_err(|e| e.to_string()),
            prompts: Vec::new(),
        }
    }

    fn answer_with(&mut self, answer: &str) {
        self.answer = Ok(answer.to_string());
    }

    fn add(&mut self, text: &str, tags: Option<&str>) -> i64 {
        let id = self.next_id;
        self.next_id += 1;
        self.reminders.push(Reminder {
            id,
            text: text.to_string(),
            resolved: false,
            resolved_at: None,
            created_from_note_id: 1,
            tags: tags.map(|t| t.to_string()),
        });
        id
    }

    fn perform(&mut self, action: Action) -> Event {
        match action {
            Action::ReadLastText => Event::LastText(self.last_text.clone()),
            Action::ListReminders => Event::Reminders(self.reminders.clone()),
            Action::Analyze(prompt) => {
                self.calls += 1;
                self.prompts.push(prompt);
                Event::Analyzed(self.answer.clone())
            }
            Action::Decode(text) => Event::Decoded(decode(&text)),
            Action::InsertReminder { note_id, text, tags } => {
                let id = self.next_id;
                self.next_id += 1;
                self.reminders.push(Reminder {
                    id,
                    text,
                    resolved: false,
                    resolved_at: None,
                    created_from_note_id: note_id,
                    tags,
                });
                Event::Stored(Ok(()))
            }
            Action::UpdateReminder { id, text, tags } => {
                match self.reminders.iter_mut().find(|r| r.id == id) {
                    Some(r) => {
                        r.text = text;
                        r.tags = tags;
                        Event::Stored(Ok(()))
                    }
                    None => Event::Stored(Err(format!("no reminder with id {}", id))),
                }
            }
            Action::AppendLog(entry) => {
                self.logs.push(entry);
                Event::Stored(Ok(()))
            }
            Action::SetLastText(text) => {
                self.last_text = Some(text);
                Event::Stored(Ok(()))
            }
            Action::Finish(_) => panic!("a finished run asks for nothing"),
        }
    }

    fn run(&mut self, note_id: i64, text: &str) -> Result<(), String> {
        let mut r = Reconciler::new(note_id, text.to_string(), "Monday, December 15, 2025".to_string());
        let mut action = r.action();
        loop {
            if let Action::Finish(result) = action {
                assert!(r.is_finished());
                return result;
            }
            assert!(!r.is_finished());
            let event = self.perform(action);
            action = r.step(event);
        }
    }
}

fn opt_str(v: &serde_json::Value) -> Result<Option<String>, String> {
    match v {
        serde_json::Value::Null => Ok(None),
        serde_json::Value::String(s) => Ok(Some(s.clone())),
        _ => Err("expected a string or null".to_string()),
    }
}

/// Decodes the answer as the host does: JSON into the schema's shape.
fn decode(text: &str) -> Result<RawAnalysis, String> {
    let v: serde_json::Value = serde_json::from_str(text).map_err(|e| e.to_string())?;
    let items = v["reminders"].as_array().ok_or("missing field `reminders`")?;
    let mut reminders = Vec::new();
    for item in items {
        reminders.push(RawReminder {
            text: item["text"].as_str().ok_or("missing field `text`")?.to_string(),
            action: item["action"].as_str().ok_or("missing field `action`")?.to_string(),
            update_id: match &item["update_id"] {
                serde_json::Value::Null => None,
                n => Some(n.as_i64().ok_or("update_id is not an integer")?),
            },
            tags: opt_str(&item["tags"])?,
        });
    }
    let reasoning = v["reasoning"].as_str().ok_or("missing field `reasoning`")?.to_string();
    Ok(RawAnalysis { reminders, reasoning })
}

const BUY_MILK: &str =
    "{\"reminders\":[{\"text\":\"Buy milk\",\"action\":\"CREATE\",\"tags\":null}],\"reasoning\":\"a task\"}";

#[test]
fn create_applies() {
    let mut host = Host::new(Ok(BUY_MILK));
    assert_eq!(host.run(4, "Buy milk tomorrow"), Ok(()));
    assert_eq!(host.reminders.len(), 1);
    let r = &host.reminders[0];
    assert_eq!(r.text, "Buy milk");
    assert!(!r.resolved);
    assert_eq!(r.resolved_at, None);
    assert_eq!(r.created_from_note_id, 4);
    assert_eq!(r.tags, None);
    assert_eq!(host.logs.len(), 1);
    let log = &host.logs[0];
    assert!(log.success);
    assert_eq!(log.note_id, 4);
    assert_eq!(log.reasoning, "a task");
    assert_eq!(log.reminders_count, 1);
    assert_eq!(log.response, BUY_MILK);
    assert_eq!(log.prompt, host.prompts[0]);
    assert_eq!(host.last_text.as_deref(), Some("Buy milk tomorrow"));
}

#[test]
fn same_text_twice_is_analysed_once() {
    let mut host = Host::new(Ok(BUY_MILK));
    assert_eq!(host.run(1, "Buy milk"), Ok(()));
    assert_eq!(host.run(1, "Buy milk"), Ok(()));
    assert_eq!(host.calls, 1);
    assert_eq!(host.logs.len(), 1);
    assert_eq!(host.reminders.len(), 1);
}

#[test]
fn skipped_run_reads_only_the_ledger() {
    let mut r = Reconciler::new(1, "same".to_string(), "today".to_string());
    assert!(matches!(r.action(), Action::ReadLastText));
    let a = r.step(Event::LastText(Some("same".to_string())));
    assert!(matches!(a, Action::Finish(Ok(()))));
    assert!(r.is_finished());
    let again = r.step(Event::Stored(Ok(())));
    assert!(matches!(again, Action::Finish(Ok(()))));
}

#[test]
fn changed_text_is_analysed_again() {
    let mut host = Host::new(Ok("{\"reminders\": [], \"reasoning\": \"nothing\"}"));
    assert_eq!(host.run(1, "A"), Ok(()));
    assert_eq!(host.run(1, "A, edited"), Ok(()));
    assert_eq!(host.calls, 2);
    assert_eq!(host.logs.len(), 2);
    assert_eq!(host.logs[1].reminders_count, 0);
    assert!(host.logs[1].success);
}

#[test]
fn identical_update_is_applied() {
    let mut host = Host::new(Ok(
        "{\"reminders\":[{\"text\":\"Call Bob\",\"action\":\"UPDATE\",\"update_id\":1,\"tags\":\"work\"}],\"reasoning\":\"same\"}",
    ));
    host.add("Call Bob", Some("work"));
    assert_eq!(host.run(2, "Call Bob --[work]"), Ok(()));
    assert_eq!(host.reminders.len(), 1);
    assert_eq!(host.reminders[0].id, 1);
    assert_eq!(host.reminders[0].text, "Call Bob");
    assert_eq!(host.reminders[0].tags.as_deref(), Some("work"));
    assert_eq!(host.reminders[0].created_from_note_id, 1);
    assert!(host.logs[0].success);
    assert_eq!(host.logs[0].reminders_count, 1);
    assert!(host.prompts[0].contains("1: Call Bob (existing tags: work)"));
}

#[test]
fn update_changes_text_and_tags() {
    let mut host = Host::new(Ok(
        "```json\n{\"reminders\":[{\"text\":\"Call Bob\",\"action\":\"UPDATE\",\"update_id\":1,\"tags\":\"work,urgent\"},{\"text\":\"Email Ann\",\"action\":\"CREATE\",\"update_id\":null,\"tags\":\"work\"}],\"reasoning\":\"tags changed\"}\n```",
    ));
    host.add("Call Bob", Some("work"));
    assert_eq!(host.run(3, "Call Bob --[work, urgent]. Email Ann --[work]"), Ok(()));
    assert_eq!(host.reminders.len(), 2);
    assert_eq!(host.reminders[0].tags.as_deref(), Some("work,urgent"));
    assert_eq!(host.reminders[1].text, "Email Ann");
    assert_eq!(host.reminders[1].created_from_note_id, 3);
    assert_eq!(host.logs[0].reminders_count, 2);
    assert!(!host.logs[0].response.contains("```"));
}

#[test]
fn malformed_answer_is_logged() {
    let mut host = Host::new(Ok("this is not json"));
    host.add("Call Bob", Some("work"));
    let result = host.run(5, "Call Bob again");
    let err = result.unwrap_err();
    assert!(err.starts_with("Failed to parse AI response as JSON: "));
    assert!(err.ends_with(". Response was: this is not json"));
    assert_eq!(host.logs.len(), 1);
    let log = &host.logs[0];
    assert!(!log.success);
    assert_eq!(log.response, err);
    assert!(log.response.contains("this is not json"));
    assert_eq!(log.reminders_count, 0);
    assert_eq!(log.reasoning, "");
    assert_eq!(host.reminders.len(), 1);
    assert_eq!(host.reminders[0].text, "Call Bob");
    assert_eq!(host.last_text, None);
}

#[test]
fn answer_outside_schema_is_refused_whole() {
    let mut host = Host::new(Ok(
        "{\"reminders\":[{\"text\":\"Buy milk\",\"action\":\"CREATE\",\"tags\":null},{\"text\":\"x\",\"action\":\"UPDATE\",\"update_id\":null,\"tags\":null}],\"reasoning\":\"r\"}",
    ));
    let err = host.run(1, "note").unwrap_err();
    assert!(err.starts_with("Failed to parse AI response as JSON: reminder 1: UPDATE without update_id. Response was: {"));
    assert!(host.reminders.is_empty());
    assert_eq!(host.logs.len(), 1);
    assert!(!host.logs[0].success);
    assert_eq!(host.last_text, None);
}

#[test]
fn transport_failure_is_logged() {
    let mut host = Host::new(Err("API error: overloaded"));
    host.last_text = Some("older note".to_string());
    let err = host.run(9, "new note").unwrap_err();
    assert_eq!(err, "AI API call failed: API error: overloaded");
    assert_eq!(host.logs.len(), 1);
    let log = &host.logs[0];
    assert!(!log.success);
    assert_eq!(log.response, "AI API call failed: API error: overloaded");
    assert_eq!(log.reasoning, "");
    assert_eq!(log.reminders_count, 0);
    assert_eq!(log.note_id, 9);
    assert_eq!(log.prompt, host.prompts[0]);
    assert_eq!(host.last_text.as_deref(), Some("older note"));
    assert!(host.reminders.is_empty());
}

#[test]
fn failed_run_is_retried_next_time() {
    let mut host = Host::new(Err("timeout"));
    assert!(host.run(1, "A").is_err());
    host.answer_with(BUY_MILK);
    assert_eq!(host.run(1, "A"), Ok(()));
    assert_eq!(host.calls, 2);
    assert_eq!(host.logs.len(), 2);
}

#[test]
fn ledger_keeps_latest_text() {
    let mut host = Host::new(Ok("{\"reminders\": [], \"reasoning\": \"none\"}"));
    assert_eq!(host.run(1, "A"), Ok(()));
    assert_eq!(host.last_text.as_deref(), Some("A"));
    assert_eq!(host.run(2, "B"), Ok(()));
    assert_eq!(host.last_text.as_deref(), Some("B"));
    assert_eq!(host.run(1, "A"), Ok(()));
    assert_eq!(host.calls, 3);
}

#[test]
fn update_of_absent_id_fails_and_stops() {
    let mut host = Host::new(Ok(
        "{\"reminders\":[{\"text\":\"First\",\"action\":\"CREATE\",\"tags\":null},{\"text\":\"Ghost\",\"action\":\"UPDATE\",\"update_id\":42,\"tags\":null},{\"text\":\"Never\",\"action\":\"CREATE\",\"tags\":null}],\"reasoning\":\"r\"}",
    ));
    let err = host.run(1, "note").unwrap_err();
    assert_eq!(err, "Failed to apply AI reminders: no reminder with id 42");
    assert_eq!(host.reminders.len(), 1);
    assert_eq!(host.reminders[0].text, "First");
    assert_eq!(host.logs.len(), 1);
    assert!(!host.logs[0].success);
    assert_eq!(host.logs[0].response, err);
    assert_eq!(host.last_text, None);
}

#[test]
fn failure_to_log_is_propagated() {
    let mut r = Reconciler::new(1, "n".to_string(), "d".to_string());
    r.step(Event::LastText(None));
    r.step(Event::Reminders(vec![]));
    let a = r.step(Event::Analyzed(Err("down".to_string())));
    match a {
        Action::AppendLog(e) => {
            assert!(!e.success);
            assert_eq!(e.response, "AI API call failed: down");
        }
        _ => panic!("expected a log entry"),
    }
    let end = r.step(Event::Stored(Err("disk full".to_string())));
    assert!(matches!(end, Action::Finish(Err(e)) if e == "disk full"));
}

#[test]
fn failure_to_record_text_is_propagated() {
    let mut r = Reconciler::new(1, "n".to_string(), "d".to_string());
    r.step(Event::LastText(None));
    r.step(Event::Reminders(vec![]));
    r.step(Event::Analyzed(Ok("{}".to_string())));
    let a = r.step(Event::Decoded(Ok(RawAnalysis { reminders: vec![], reasoning: "none".to_string() })));
    assert!(matches!(a, Action::AppendLog(ref e) if e.success && e.reminders_count == 0));
    let a = r.step(Event::Stored(Ok(())));
    assert!(matches!(a, Action::SetLastText(ref t) if t == "n"));
    let end = r.step(Event::Stored(Err("locked".to_string())));
    assert!(matches!(end, Action::Finish(Err(e)) if e == "locked"));
}

#[test]
fn unexpected_event_ends_the_run() {
    let mut r = Reconciler::new(1, "n".to_string(), "d".to_string());
    let a = r.step(Event::Stored(Ok(())));
    assert!(matches!(a, Action::Finish(Err(e)) if e == "event does not answer the pending action"));
    assert!(r.is_finished());
}

#[test]
fn begin_dates_the_run_and_reads_the_ledger_first() {
    let r = Reconciler::begin(3, "note".to_string());
    assert_eq!(r.note_id, 3);
    assert_eq!(r.note_text, "note");
    let parts: Vec<&str> = r.current_date.split(", ").collect();
    assert_eq!(parts.len(), 3);
    assert!(parts[2].parse::<i32>().is_ok());
    assert!(matches!(r.action(), Action::ReadLastText));
    assert!(!r.is_finished());
}

#[test]
fn analysis_prompt_uses_live_reminders() {
    let mut host = Host::new(Ok("{\"reminders\": [], \"reasoning\": \"none\"}"));
    host.add("Pay rent", None);
    assert_eq!(host.run(1, "rent"), Ok(()));
    assert!(host.prompts[0].contains("Today's date is Monday, December 15, 2025."));
    assert!(host.prompts[0].contains("1: Pay rent (existing tags: )"));
    assert!(host.prompts[0].ends_with("Note to analyze:\nrent\n"));
}
