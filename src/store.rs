use vstd::prelude::*;

verus! {

/// The text of an optional string, as a sequence of characters.
pub open spec fn opt_text(o: Option<String>) -> Option<Seq<char>> {
    match o {
        Some(s) => Some(s@),
        None => None,
    }
}

/// A reminder as kept by the reminder store.
#[derive(Debug, Clone)]
pub struct Reminder {
    pub id: i64,
    pub text: String,
    pub resolved: bool,
    pub resolved_at: Option<String>,
    pub created_from_note_id: i64,
    pub tags: Option<String>,
}

/// What a [`Reminder`] stands for in contracts.
pub struct ReminderModel {
    pub id: int,
    pub text: Seq<char>,
    pub resolved: bool,
    pub resolved_at: Option<Seq<char>>,
    pub created_from_note_id: int,
    pub tags: Option<Seq<char>>,
}

impl ReminderModel {
    /// A reminder carries a resolution time exactly when it is resolved.
    pub open spec fn wf(self) -> bool {
        self.resolved_at is Some <==> self.resolved
    }
}

impl View for Reminder {
    type V = ReminderModel;

    open spec fn view(&self) -> ReminderModel {
        ReminderModel {
            id: self.id as int,
            text: self.text@,
            resolved: self.resolved,
            resolved_at: opt_text(self.resolved_at),
            created_from_note_id: self.created_from_note_id as int,
            tags: opt_text(self.tags),
        }
    }
}

/// The models of a list of reminders, in order.
pub open spec fn reminders_model(v: Seq<Reminder>) -> Seq<ReminderModel> {
    v.map_values(|r: Reminder| r@)
}

/// One entry of the interaction log: what was asked, what came back, and
/// whether the analysis went through.
#[derive(Debug, Clone)]
pub struct LogEntry {
    pub note_id: i64,
    pub prompt: String,
    pub response: String,
    pub success: bool,
    pub reasoning: String,
    pub reminders_count: usize,
}

/// What a [`LogEntry`] stands for in contracts.
pub struct LogModel {
    pub note_id: int,
    pub prompt: Seq<char>,
    pub response: Seq<char>,
    pub success: bool,
    pub reasoning: Seq<char>,
    pub reminders_count: nat,
}

impl View for LogEntry {
    type V = LogModel;

    open spec fn view(&self) -> LogModel {
        LogModel {
            note_id: self.note_id as int,
            prompt: self.prompt@,
            response: self.response@,
            success: self.success,
            reasoning: self.reasoning@,
            reminders_count: self.reminders_count as nat,
        }
    }
}

} // verus!
