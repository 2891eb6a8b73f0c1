use juli::request::{request_body, API_VERSION, MESSAGES_URL};
use juli::response::{validate_analysis, RawAnalysis, RawReminder, ReminderAction, SchemaError};

fn raw(text: &str, action: &str, update_id: Option<i64>, tags: Option<&str>) -> RawReminder {
    RawReminder {
        text: text.to_string(),
        action: action.to_string(),
        update_id,
        tags: tags.map(|t| t.to_string()),
    }
}

#[test]
fn accepts_create_and_update() {
    let a = RawAnalysis {
        reminders: vec![
            raw("Buy milk", "CREATE", None, None),
            raw("Call Bob", "UPDATE", Some(1), Some("work,urgent")),
        ],
        reasoning: "two items".to_string(),
    };
    let checked = validate_analysis(&a).unwrap();
    assert_eq!(checked.reasoning, "two items");
    assert_eq!(checked.reminders.len(), 2);
    assert_eq!(checked.reminders[0].text, "Buy milk");
    assert_eq!(checked.reminders[0].action, ReminderAction::Create);
    assert_eq!(checked.reminders[0].tags, None);
    assert_eq!(checked.reminders[1].action, ReminderAction::Update(1));
    assert_eq!(checked.reminders[1].tags.as_deref(), Some("work,urgent"));
}

#[test]
fn accepts_empty_answer() {
    let a = RawAnalysis { reminders: vec![], reasoning: "No actionable tasks".to_string() };
    let checked = validate_analysis(&a).unwrap();
    assert!(checked.reminders.is_empty());
    assert_eq!(checked.reasoning, "No actionable tasks");
}

#[test]
fn refuses_unknown_action() {
    let a = RawAnalysis {
        reminders: vec![raw("ok", "CREATE", None, None), raw("x", "DELETE", Some(3), None)],
        reasoning: String::new(),
    };
    match validate_analysis(&a) {
        Err(SchemaError::UnknownAction { index, action }) => {
            assert_eq!(index, 1);
            assert_eq!(action, "DELETE");
        }
        other => panic!("unexpected: {:?}", other),
    }
}

#[test]
fn refuses_update_without_id() {
    let a = RawAnalysis {
        reminders: vec![raw("x", "UPDATE", None, None), raw("y", "BOGUS", None, None)],
        reasoning: String::new(),
    };
    match validate_analysis(&a) {
        Err(e) => {
            assert!(matches!(e, SchemaError::MissingUpdateId { index: 0 }));
            assert_eq!(e.describe(), "reminder 0: UPDATE without update_id");
        }
        Ok(_) => panic!("accepted an UPDATE without an id"),
    }
}

#[test]
fn refuses_lowercase_action() {
    let a = RawAnalysis { reminders: vec![raw("x", "create", None, None)], reasoning: String::new() };
    let e = validate_analysis(&a).unwrap_err();
    assert_eq!(e.describe(), "reminder 0: unknown action \"create\"");
}

#[test]
fn request_body_for_plain_prompt() {
    assert_eq!(
        request_body("test-model", "hello"),
        "{\"max_tokens\":1024,\"messages\":[{\"content\":\"hello\",\"role\":\"user\"}],\"model\":\"test-model\"}"
    );
}

#[test]
fn request_body_escapes_prompt() {
    let body = request_body("test-model", "say \"hi\"\nnow\\");
    assert_eq!(
        body,
        "{\"max_tokens\":1024,\"messages\":[{\"content\":\"say \\\"hi\\\"\\nnow\\\\\",\"role\":\"user\"}],\"model\":\"test-model\"}"
    );
    let parsed: serde_json::Value = serde_json::from_str(&body).unwrap();
    assert_eq!(parsed["messages"][0]["content"], "say \"hi\"\nnow\\");
    assert_eq!(parsed["messages"][0]["role"], "user");
    assert_eq!(parsed["max_tokens"], 1024);
    assert_eq!(parsed["model"], "test-model");
}

#[test]
fn endpoint_constants() {
    assert_eq!(MESSAGES_URL, "https://api.anthropic.com/v1/messages");
    assert_eq!(API_VERSION, "2023-06-01");
}
