use vstd::prelude::*;
use crate::clock::get_formatted_date;
use crate::prompt::{analysis_prompt, build_analysis_prompt};
use crate::response::{
    checked_analysis, clone_text, schema_error_text, validate_analysis, ExtractedModel,
    ExtractedReminder, RawAnalysis, RawAnalysisModel, ReminderAction,
};
use crate::store::{opt_text, reminders_model, LogEntry, LogModel, Reminder, ReminderModel};
use crate::text::{same_text, strip_code_fences, unfenced};

verus! {

/// What the host reports back after doing what the reconciler asked.
pub enum Event {
    /// The ledger's last analysed note text, if any.
    LastText(Option<String>),
    /// Every reminder in the store, in order of creation.
    Reminders(Vec<Reminder>),
    /// The model's raw answer, or why the call did not go through.
    Analyzed(Result<String, String>),
    /// The answer decoded from JSON, or why it could not be decoded.
    Decoded(Result<RawAnalysis, String>),
    /// Whether a write to the store went through.
    Stored(Result<(), String>),
}

/// What an [`Event`] stands for in contracts.
pub enum EventModel {
    LastText(Option<Seq<char>>),
    Reminders(Seq<ReminderModel>),
    Analyzed(Result<Seq<char>, Seq<char>>),
    Decoded(Result<RawAnalysisModel, Seq<char>>),
    Stored(Result<(), Seq<char>>),
}

pub open spec fn result_text(r: Result<String, String>) -> Result<Seq<char>, Seq<char>> {
    match r {
        Ok(s) => Ok(s@),
        Err(e) => Err(e@),
    }
}

pub open spec fn unit_result_text(r: Result<(), String>) -> Result<(), Seq<char>> {
    match r {
        Ok(_) => Ok(()),
        Err(e) => Err(e@),
    }
}

impl View for Event {
    type V = EventModel;

    open spec fn view(&self) -> EventModel {
        match self {
            Event::LastText(t) => EventModel::LastText(opt_text(*t)),
            Event::Reminders(rs) => EventModel::Reminders(reminders_model(rs@)),
            Event::Analyzed(r) => EventModel::Analyzed(result_text(*r)),
            Event::Decoded(r) => EventModel::Decoded(
                match r {
                    Ok(a) => Ok(a@),
                    Err(e) => Err(e@),
                },
            ),
            Event::Stored(r) => EventModel::Stored(unit_result_text(*r)),
        }
    }
}

/// What the reconciler asks its host to do next.
pub enum Action {
    /// Read the ledger's last analysed note text.
    ReadLastText,
    /// List every reminder in the store.
    ListReminders,
    /// Send this prompt to the model, once.
    Analyze(String),
    /// Decode this answer from JSON.
    Decode(String),
    /// Store a new, unresolved reminder made from the note.
    InsertReminder { note_id: i64, text: String, tags: Option<String> },
    /// Overwrite the text and tags of a reminder; fails if there is no such id.
    UpdateReminder { id: i64, text: String, tags: Option<String> },
    /// Append an entry to the interaction log.
    AppendLog(LogEntry),
    /// Put this text in the ledger's single slot.
    SetLastText(String),
    /// The run is over, with this outcome.
    Finish(Result<(), String>),
}

/// What an [`Action`] stands for in contracts.
pub enum ActionModel {
    ReadLastText,
    ListReminders,
    Analyze(Seq<char>),
    Decode(Seq<char>),
    InsertReminder { note_id: int, text: Seq<char>, tags: Option<Seq<char>> },
    UpdateReminder { id: int, text: Seq<char>, tags: Option<Seq<char>> },
    AppendLog(LogModel),
    SetLastText(Seq<char>),
    Finish(Result<(), Seq<char>>),
}

impl View for Action {
    type V = ActionModel;

    open spec fn view(&self) -> ActionModel {
        match self {
            Action::ReadLastText => ActionModel::ReadLastText,
            Action::ListReminders => ActionModel::ListReminders,
            Action::Analyze(p) => ActionModel::Analyze(p@),
            Action::Decode(t) => ActionModel::Decode(t@),
            Action::InsertReminder { note_id, text, tags } => ActionModel::InsertReminder {
                note_id: *note_id as int,
                text: text@,
                tags: opt_text(*tags),
            },
            Action::UpdateReminder { id, text, tags } => ActionModel::UpdateReminder {
                id: *id as int,
                text: text@,
                tags: opt_text(*tags),
            },
            Action::AppendLog(e) => ActionModel::AppendLog(e@),
            Action::SetLastText(t) => ActionModel::SetLastText(t@),
            Action::Finish(r) => ActionModel::Finish(unit_result_text(*r)),
        }
    }
}

/// Where a run stands: each phase waits for the event that answers the
/// action it asked for.
#[derive(Debug, Clone, Copy, PartialEq, Eq, Structural)]
pub enum Phase {
    AwaitLastText,
    AwaitReminders,
    AwaitAnalysis,
    AwaitDecode,
    Applying,
    AwaitLog,
    AwaitLedger,
    /// Over without analysis: the note had been analysed already.
    Skipped,
    /// Over after analysis, or after a failure.
    Done,
}

/// One analysis of one note, from the duplicate check to the ledger update.
pub struct Reconciler {
    pub note_id: i64,
    pub note_text: String,
    pub current_date: String,
    pub phase: Phase,
    pub prompt: String,
    /// The model's answer with its code fences taken out.
    pub response: String,
    pub items: Vec<ExtractedReminder>,
    pub reasoning: String,
    /// How many of `items` the store has applied.
    pub applied: usize,
    /// Why the run failed, once it has.
    pub failure: Option<String>,
}

/// What a [`Reconciler`] stands for in contracts.
pub struct RunModel {
    pub note_id: int,
    pub note_text: Seq<char>,
    pub current_date: Seq<char>,
    pub phase: Phase,
    pub prompt: Seq<char>,
    pub response: Seq<char>,
    pub items: Seq<ExtractedModel>,
    pub reasoning: Seq<char>,
    pub applied: nat,
    pub failure: Option<Seq<char>>,
}

impl View for Reconciler {
    type V = RunModel;

    open spec fn view(&self) -> RunModel {
        RunModel {
            note_id: self.note_id as int,
            note_text: self.note_text@,
            current_date: self.current_date@,
            phase: self.phase,
            prompt: self.prompt@,
            response: self.response@,
            items: self.items@.map_values(|x: ExtractedReminder| x@),
            reasoning: self.reasoning@,
            applied: self.applied as nat,
            failure: opt_text(self.failure),
        }
    }
}

impl RunModel {
    pub open spec fn wf(self) -> bool {
        &&& self.applied <= self.items.len()
        &&& self.phase == Phase::Applying ==> self.applied < self.items.len()
    }
}

impl Reconciler {
    pub open spec fn wf(&self) -> bool {
        self@.wf()
    }
}

/// A run that has not started: its first action reads the ledger.
pub open spec fn initial_run(note_id: int, note_text: Seq<char>, current_date: Seq<char>) -> RunModel {
    RunModel {
        note_id,
        note_text,
        current_date,
        phase: Phase::AwaitLastText,
        prompt: Seq::empty(),
        response: Seq::empty(),
        items: Seq::empty(),
        reasoning: Seq::empty(),
        applied: 0,
        failure: None,
    }
}

/// The message of a run whose call to the model did not go through.
pub open spec fn transport_failure(e: Seq<char>) -> Seq<char> {
    "AI API call failed: "@ + e
}

/// The message of a run whose answer could not be read, with the answer.
pub open spec fn parse_failure(detail: Seq<char>, response: Seq<char>) -> Seq<char> {
    "Failed to parse AI response as JSON: "@ + detail + ". Response was: "@ + response
}

/// The message of a run that could not apply a reminder.
pub open spec fn apply_failure(e: Seq<char>) -> Seq<char> {
    "Failed to apply AI reminders: "@ + e
}

/// The message of a run given an event that answers another action.
pub open spec fn unexpected_event() -> Seq<char> {
    "event does not answer the pending action"@
}

/// The store operation that carries out one extracted reminder.
pub open spec fn apply_action(note_id: int, x: ExtractedModel) -> ActionModel {
    match x.action {
        ReminderAction::Create => ActionModel::InsertReminder { note_id, text: x.text, tags: x.tags },
        ReminderAction::Update(id) => ActionModel::UpdateReminder {
            id: id as int,
            text: x.text,
            tags: x.tags,
        },
    }
}

/// The log entry of a run: the prompt, the answer, the reasoning and the
/// number of extracted reminders on success; the failure message otherwise.
pub open spec fn log_entry(m: RunModel) -> LogModel {
    match m.failure {
        None => LogModel {
            note_id: m.note_id,
            prompt: m.prompt,
            response: m.response,
            success: true,
            reasoning: m.reasoning,
            reminders_count: m.items.len(),
        },
        Some(e) => LogModel {
            note_id: m.note_id,
            prompt: m.prompt,
            response: e,
            success: false,
            reasoning: Seq::empty(),
            reminders_count: 0,
        },
    }
}

/// The action that a run in state `m` asks for.
pub open spec fn pending(m: RunModel) -> ActionModel {
    match m.phase {
        Phase::AwaitLastText => ActionModel::ReadLastText,
        Phase::AwaitReminders => ActionModel::ListReminders,
        Phase::AwaitAnalysis => ActionModel::Analyze(m.prompt),
        Phase::AwaitDecode => ActionModel::Decode(m.response),
        Phase::Applying => apply_action(m.note_id, m.items[m.applied as int]),
        Phase::AwaitLog => ActionModel::AppendLog(log_entry(m)),
        Phase::AwaitLedger => ActionModel::SetLastText(m.note_text),
        Phase::Skipped => ActionModel::Finish(Ok(())),
        Phase::Done => ActionModel::Finish(
            match m.failure {
                None => Ok(()),
                Some(e) => Err(e),
            },
        ),
    }
}

/// The state that ends a run with the failure `e`, logged first unless the
/// log is what failed.
pub open spec fn failed(m: RunModel, e: Seq<char>) -> RunModel {
    RunModel { phase: Phase::AwaitLog, failure: Some(e), ..m }
}

/// The state of a run after the event `ev`.
pub open spec fn next_state(m: RunModel, ev: EventModel) -> RunModel {
    match (m.phase, ev) {
        (Phase::Skipped, _) => m,
        (Phase::Done, _) => m,
        (Phase::AwaitLastText, EventModel::LastText(last)) => if last == Some(m.note_text) {
            RunModel { phase: Phase::Skipped, ..m }
        } else {
            RunModel { phase: Phase::AwaitReminders, ..m }
        },
        (Phase::AwaitReminders, EventModel::Reminders(rs)) => RunModel {
            phase: Phase::AwaitAnalysis,
            prompt: analysis_prompt(m.note_text, m.current_date, rs),
            ..m
        },
        (Phase::AwaitAnalysis, EventModel::Analyzed(Err(e))) => failed(m, transport_failure(e)),
        (Phase::AwaitAnalysis, EventModel::Analyzed(Ok(raw))) => RunModel {
            phase: Phase::AwaitDecode,
            response: unfenced(raw),
            ..m
        },
        (Phase::AwaitDecode, EventModel::Decoded(Err(e))) => failed(m, parse_failure(e, m.response)),
        (Phase::AwaitDecode, EventModel::Decoded(Ok(raw))) => match checked_analysis(raw) {
            Err(se) => failed(m, parse_failure(schema_error_text(se), m.response)),
            Ok(a) => RunModel {
                phase: if a.reminders.len() == 0 {
                    Phase::AwaitLog
                } else {
                    Phase::Applying
                },
                items: a.reminders,
                reasoning: a.reasoning,
                applied: 0,
                ..m
            },
        },
        (Phase::Applying, EventModel::Stored(Ok(_))) => RunModel {
            phase: if m.applied + 1 == m.items.len() {
                Phase::AwaitLog
            } else {
                Phase::Applying
            },
            applied: m.applied + 1,
            ..m
        },
        (Phase::Applying, EventModel::Stored(Err(e))) => failed(m, apply_failure(e)),
        (Phase::AwaitLog, EventModel::Stored(Ok(_))) => RunModel {
            phase: if m.failure is None {
                Phase::AwaitLedger
            } else {
                Phase::Done
            },
            ..m
        },
        (Phase::AwaitLog, EventModel::Stored(Err(e))) => RunModel {
            phase: Phase::Done,
            failure: Some(e),
            ..m
        },
        (Phase::AwaitLedger, EventModel::Stored(Ok(_))) => RunModel { phase: Phase::Done, ..m },
        (Phase::AwaitLedger, EventModel::Stored(Err(e))) => RunModel {
            phase: Phase::Done,
            failure: Some(e),
            ..m
        },
        _ => RunModel { phase: Phase::Done, failure: Some(unexpected_event()), ..m },
    }
}


fn joined(a: &str, b: &str) -> (r: String)
    ensures
        r@ == a@ + b@,
{
    let mut s = String::new();
    s.append(a);
    s.append(b);
    s
}

fn parse_failure_message(detail: &str, response: &str) -> (r: String)
    ensures
        r@ == parse_failure(detail@, response@),
{
    let mut s = String::new();
    s.append("Failed to parse AI response as JSON: ");
    s.append(detail);
    s.append(". Response was: ");
    s.append(response);
    s
}

impl Reconciler {
    /// A run that will analyse `note_text`, the text of note `note_id`, on
    /// the day `current_date` (as it should be shown to the model).
    pub fn new(note_id: i64, note_text: String, current_date: String) -> (r: Reconciler)
        ensures
            r.wf(),
            r@ == initial_run(note_id as int, note_text@, current_date@),
    {
        let r = Reconciler {
            note_id,
            note_text,
            current_date,
            phase: Phase::AwaitLastText,
            prompt: String::new(),
            response: String::new(),
            items: Vec::new(),
            reasoning: String::new(),
            applied: 0,
            failure: None,
        };
        assert(r@.items =~= Seq::<ExtractedModel>::empty());
        r
    }

    /// A run that will analyse `note_text` today, by the local clock.
    pub fn begin(note_id: i64, note_text: String) -> (r: Reconciler)
        ensures
            r.wf(),
            r@ == initial_run(note_id as int, note_text@, r@.current_date),
    {
        let today = get_formatted_date();
        Reconciler::new(note_id, note_text, today)
    }

    fn log_entry(&self) -> (e: LogEntry)
        ensures
            e@ == log_entry(self@),
    {
        match &self.failure {
            None => LogEntry {
                note_id: self.note_id,
                prompt: self.prompt.clone(),
                response: self.response.clone(),
                success: true,
                reasoning: self.reasoning.clone(),
                reminders_count: self.items.len(),
            },
            Some(e) => LogEntry {
                note_id: self.note_id,
                prompt: self.prompt.clone(),
                response: e.clone(),
                success: false,
                reasoning: String::new(),
                reminders_count: 0,
            },
        }
    }

    /// The action this run asks its host for.
    pub fn action(&self) -> (a: Action)
        requires
            self.wf(),
        ensures
            a@ == pending(self@),
    {
        match self.phase {
            Phase::AwaitLastText => Action::ReadLastText,
            Phase::AwaitReminders => Action::ListReminders,
            Phase::AwaitAnalysis => Action::Analyze(self.prompt.clone()),
            Phase::AwaitDecode => Action::Decode(self.response.clone()),
            Phase::Applying => {
                let x = &self.items[self.applied];
                assert(self@.items[self.applied as int] == x@);
                match x.action {
                    ReminderAction::Create => Action::InsertReminder {
                        note_id: self.note_id,
                        text: x.text.clone(),
                        tags: clone_text(&x.tags),
                    },
                    ReminderAction::Update(id) => Action::UpdateReminder {
                        id,
                        text: x.text.clone(),
                        tags: clone_text(&x.tags),
                    },
                }
            },
            Phase::AwaitLog => Action::AppendLog(self.log_entry()),
            Phase::AwaitLedger => Action::SetLastText(self.note_text.clone()),
            Phase::Skipped => Action::Finish(Ok(())),
            Phase::Done => match &self.failure {
                None => Action::Finish(Ok(())),
                Some(e) => Action::Finish(Err(e.clone())),
            },
        }
    }

    /// Whether the run is over: its action is `Finish`.
    pub fn is_finished(&self) -> (r: bool)
        ensures
            r == (pending(self@) is Finish),
    {
        match self.phase {
            Phase::Skipped | Phase::Done => true,
            _ => false,
        }
    }

    fn fail(&mut self, e: String)
        ensures
            final(self)@ == failed(old(self)@, e@),
    {
        self.phase = Phase::AwaitLog;
        self.failure = Some(e);
    }

    fn unexpected(&mut self)
        ensures
            final(self)@ == (RunModel {
                phase: Phase::Done,
                failure: Some(unexpected_event()),
                ..old(self)@
            }),
    {
        self.phase = Phase::Done;
        self.failure = Some(String::from_str("event does not answer the pending action"));
    }

    /// Takes in what the host reports on the pending action and returns the
    /// next one. A finished run ignores further events.
    pub fn step(&mut self, ev: Event) -> (a: Action)
        requires
            old(self).wf(),
        ensures
            final(self).wf(),
            final(self)@ == next_state(old(self)@, ev@),
            a@ == pending(final(self)@),
    {
        match self.phase {
            Phase::Skipped | Phase::Done => {},
            Phase::AwaitLastText => match ev {
                Event::LastText(last) => {
                    let same = match &last {
                        Some(t) => same_text(t.as_str(), self.note_text.as_str()),
                        None => false,
                    };
                    if same {
                        self.phase = Phase::Skipped;
                    } else {
                        self.phase = Phase::AwaitReminders;
                    }
                },
                _ => self.unexpected(),
            },
            Phase::AwaitReminders => match ev {
                Event::Reminders(rs) => {
                    self.prompt = build_analysis_prompt(
                        self.note_text.as_str(),
                        self.current_date.as_str(),
                        &rs,
                    );
                    self.phase = Phase::AwaitAnalysis;
                },
                _ => self.unexpected(),
            },
            Phase::AwaitAnalysis => match ev {
                Event::Analyzed(Ok(raw)) => {
                    self.response = strip_code_fences(raw.as_str());
                    self.phase = Phase::AwaitDecode;
                },
                Event::Analyzed(Err(e)) => {
                    let msg = joined("AI API call failed: ", e.as_str());
                    self.fail(msg);
                },
                _ => self.unexpected(),
            },
            Phase::AwaitDecode => match ev {
                Event::Decoded(Ok(raw)) => match validate_analysis(&raw) {
                    Ok(a) => {
                        self.items = a.reminders;
                        self.reasoning = a.reasoning;
                        self.applied = 0;
                        if self.items.len() == 0 {
                            self.phase = Phase::AwaitLog;
                        } else {
                            self.phase = Phase::Applying;
                        }
                    },
                    Err(se) => {
                        let detail = se.describe();
                        let msg = parse_failure_message(detail.as_str(), self.response.as_str());
                        self.fail(msg);
                    },
                },
                Event::Decoded(Err(e)) => {
                    let msg = parse_failure_message(e.as_str(), self.response.as_str());
                    self.fail(msg);
                },
                _ => self.unexpected(),
            },
            Phase::Applying => match ev {
                Event::Stored(Ok(())) => {
                    assert(self.applied < self.items.len());
                    self.applied = self.applied + 1;
                    if self.applied == self.items.len() {
                        self.phase = Phase::AwaitLog;
                    } else {
                        self.phase = Phase::Applying;
                    }
                },
                Event::Stored(Err(e)) => {
                    let msg = joined("Failed to apply AI reminders: ", e.as_str());
                    self.fail(msg);
                },
                _ => self.unexpected(),
            },
            Phase::AwaitLog => match ev {
                Event::Stored(Ok(())) => {
                    if self.failure.is_none() {
                        self.phase = Phase::AwaitLedger;
                    } else {
                        self.phase = Phase::Done;
                    }
                },
                Event::Stored(Err(e)) => {
                    self.phase = Phase::Done;
                    self.failure = Some(e);
                },
                _ => self.unexpected(),
            },
            Phase::AwaitLedger => match ev {
                Event::Stored(Ok(())) => {
                    self.phase = Phase::Done;
                },
                Event::Stored(Err(e)) => {
                    self.phase = Phase::Done;
                    self.failure = Some(e);
                },
                _ => self.unexpected(),
            },
        }
        self.action()
    }
}

} // verus!
