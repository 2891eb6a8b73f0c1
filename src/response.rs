use vstd::prelude::*;
use crate::store::opt_text;
use crate::text::{digits, push_digits, same_text};

verus! {

/// One reminder of the model's answer as decoded from JSON, before its
/// action is checked.
#[derive(Debug, Clone)]
pub struct RawReminder {
    pub text: String,
    pub action: String,
    pub update_id: Option<i64>,
    pub tags: Option<String>,
}

/// The model's answer as decoded from JSON, before its actions are checked.
#[derive(Debug, Clone)]
pub struct RawAnalysis {
    pub reminders: Vec<RawReminder>,
    pub reasoning: String,
}

/// What a [`RawReminder`] stands for in contracts.
pub struct RawReminderModel {
    pub text: Seq<char>,
    pub action: Seq<char>,
    pub update_id: Option<int>,
    pub tags: Option<Seq<char>>,
}

/// What a [`RawAnalysis`] stands for in contracts.
pub struct RawAnalysisModel {
    pub reminders: Seq<RawReminderModel>,
    pub reasoning: Seq<char>,
}

impl View for RawReminder {
    type V = RawReminderModel;

    open spec fn view(&self) -> RawReminderModel {
        RawReminderModel {
            text: self.text@,
            action: self.action@,
            update_id: match self.update_id {
                Some(id) => Some(id as int),
                None => None,
            },
            tags: opt_text(self.tags),
        }
    }
}

impl View for RawAnalysis {
    type V = RawAnalysisModel;

    open spec fn view(&self) -> RawAnalysisModel {
        RawAnalysisModel {
            reminders: self.reminders@.map_values(|r: RawReminder| r@),
            reasoning: self.reasoning@,
        }
    }
}

/// What the model asks to be done with an extracted reminder.
#[derive(Debug, Clone, Copy, PartialEq, Eq, Structural)]
pub enum ReminderAction {
    Create,
    /// Overwrite the text and tags of the reminder with this id.
    Update(i64),
}

/// A reminder extracted from a note, with a checked action.
#[derive(Debug, Clone)]
pub struct ExtractedReminder {
    pub text: String,
    pub action: ReminderAction,
    pub tags: Option<String>,
}

/// What an [`ExtractedReminder`] stands for in contracts.
pub struct ExtractedModel {
    pub text: Seq<char>,
    pub action: ReminderAction,
    pub tags: Option<Seq<char>>,
}

impl View for ExtractedReminder {
    type V = ExtractedModel;

    open spec fn view(&self) -> ExtractedModel {
        ExtractedModel { text: self.text@, action: self.action, tags: opt_text(self.tags) }
    }
}

/// The model's answer once every action has been checked.
#[derive(Debug, Clone)]
pub struct Analysis {
    pub reminders: Vec<ExtractedReminder>,
    pub reasoning: String,
}

/// What an [`Analysis`] stands for in contracts.
pub struct AnalysisModel {
    pub reminders: Seq<ExtractedModel>,
    pub reasoning: Seq<char>,
}

impl View for Analysis {
    type V = AnalysisModel;

    open spec fn view(&self) -> AnalysisModel {
        AnalysisModel {
            reminders: self.reminders@.map_values(|r: ExtractedReminder| r@),
            reasoning: self.reasoning@,
        }
    }
}

/// Why a decoded answer does not follow the schema.
#[derive(Debug, Clone)]
pub enum SchemaError {
    /// The action of the reminder at this position is neither CREATE nor UPDATE.
    UnknownAction { index: usize, action: String },
    /// The reminder at this position asks for an UPDATE without an id.
    MissingUpdateId { index: usize },
}

/// What a [`SchemaError`] stands for in contracts.
pub enum SchemaErrorModel {
    UnknownAction { index: nat, action: Seq<char> },
    MissingUpdateId { index: nat },
}

impl View for SchemaError {
    type V = SchemaErrorModel;

    open spec fn view(&self) -> SchemaErrorModel {
        match self {
            SchemaError::UnknownAction { index, action } => SchemaErrorModel::UnknownAction {
                index: *index as nat,
                action: action@,
            },
            SchemaError::MissingUpdateId { index } => SchemaErrorModel::MissingUpdateId {
                index: *index as nat,
            },
        }
    }
}

/// The checked form of the reminder at position `index`.
pub open spec fn check_reminder(r: RawReminderModel, index: nat) -> Result<
    ExtractedModel,
    SchemaErrorModel,
> {
    if r.action == "CREATE"@ {
        Ok(ExtractedModel { text: r.text, action: ReminderAction::Create, tags: r.tags })
    } else if r.action == "UPDATE"@ {
        match r.update_id {
            Some(id) => Ok(
                ExtractedModel { text: r.text, action: ReminderAction::Update(id as i64), tags: r.tags },
            ),
            None => Err(SchemaErrorModel::MissingUpdateId { index }),
        }
    } else {
        Err(SchemaErrorModel::UnknownAction { index, action: r.action })
    }
}

/// The checked reminders, or the error of the first one that fails.
pub open spec fn check_reminders(rs: Seq<RawReminderModel>) -> Result<
    Seq<ExtractedModel>,
    SchemaErrorModel,
>
    decreases rs.len(),
{
    if rs.len() == 0 {
        Ok(Seq::empty())
    } else {
        match check_reminders(rs.drop_last()) {
            Err(e) => Err(e),
            Ok(done) => match check_reminder(rs.last(), (rs.len() - 1) as nat) {
                Ok(x) => Ok(done.push(x)),
                Err(e) => Err(e),
            },
        }
    }
}

/// The checked answer: the whole answer is refused when one reminder fails.
pub open spec fn checked_analysis(raw: RawAnalysisModel) -> Result<AnalysisModel, SchemaErrorModel> {
    match check_reminders(raw.reminders) {
        Ok(rs) => Ok(AnalysisModel { reminders: rs, reasoning: raw.reasoning }),
        Err(e) => Err(e),
    }
}

/// How a schema error is reported.
pub open spec fn schema_error_text(e: SchemaErrorModel) -> Seq<char> {
    match e {
        SchemaErrorModel::UnknownAction { index, action } => "reminder "@ + digits(index)
            + ": unknown action \""@ + action + "\""@,
        SchemaErrorModel::MissingUpdateId { index } => "reminder "@ + digits(index)
            + ": UPDATE without update_id"@,
    }
}

impl SchemaError {
    /// A sentence that says what is wrong.
    pub fn describe(&self) -> (r: String)
        ensures
            r@ == schema_error_text(self@),
    {
        let mut s = String::new();
        s.append("reminder ");
        match self {
            SchemaError::UnknownAction { index, action } => {
                push_digits(&mut s, *index as u64);
                s.append(": unknown action \"");
                s.append(action.as_str());
                s.append("\"");
            },
            SchemaError::MissingUpdateId { index } => {
                push_digits(&mut s, *index as u64);
                s.append(": UPDATE without update_id");
            },
        }
        assert(s@ =~= schema_error_text(self@));
        s
    }
}

/// Once a prefix of the reminders fails, every longer prefix fails with the
/// same error.
proof fn lemma_error_persists(rs: Seq<RawReminderModel>, k: int)
    requires
        0 <= k <= rs.len(),
        check_reminders(rs.take(k)) is Err,
    ensures
        check_reminders(rs) == check_reminders(rs.take(k)),
    decreases rs.len() - k,
{
    if k < rs.len() {
        let t = rs.take(k + 1);
        assert(t.drop_last() =~= rs.take(k));
        lemma_error_persists(rs, k + 1);
    } else {
        assert(rs.take(k) =~= rs);
    }
}

pub fn clone_text(o: &Option<String>) -> (r: Option<String>)
    ensures
        opt_text(r) == opt_text(*o),
{
    match o {
        Some(s) => Some(s.clone()),
        None => None,
    }
}

fn check_one(r: &RawReminder, index: usize) -> (res: Result<ExtractedReminder, SchemaError>)
    ensures
        match (res, check_reminder(r@, index as nat)) {
            (Ok(x), Ok(m)) => x@ == m,
            (Err(e), Err(m)) => e@ == m,
            _ => false,
        },
{
    if same_text(r.action.as_str(), "CREATE") {
        Ok(ExtractedReminder { text: r.text.clone(), action: ReminderAction::Create, tags: clone_text(&r.tags) })
    } else if same_text(r.action.as_str(), "UPDATE") {
        match r.update_id {
            Some(id) => Ok(
                ExtractedReminder {
                    text: r.text.clone(),
                    action: ReminderAction::Update(id),
                    tags: clone_text(&r.tags),
                },
            ),
            None => Err(SchemaError::MissingUpdateId { index }),
        }
    } else {
        Err(SchemaError::UnknownAction { index, action: r.action.clone() })
    }
}

/// Checks every action of a decoded answer: each must be CREATE, or UPDATE
/// with the id of the reminder to overwrite. One bad reminder refuses the
/// whole answer, with the error of the first.
pub fn validate_analysis(raw: &RawAnalysis) -> (res: Result<Analysis, SchemaError>)
    ensures
        match (res, checked_analysis(raw@)) {
            (Ok(a), Ok(m)) => a@ == m,
            (Err(e), Err(m)) => e@ == m,
            _ => false,
        },
{
    let ghost rs = raw@.reminders;
    let mut out: Vec<ExtractedReminder> = Vec::new();
    let mut i: usize = 0;
    assert(rs.take(0) =~= Seq::<RawReminderModel>::empty());
    assert(out@.map_values(|x: ExtractedReminder| x@) =~= Seq::<ExtractedModel>::empty());
    while i < raw.reminders.len()
        invariant
            rs == raw@.reminders,
            i <= raw.reminders.len(),
            check_reminders(rs.take(i as int)) == Ok::<Seq<ExtractedModel>, SchemaErrorModel>(
                out@.map_values(|x: ExtractedReminder| x@),
            ),
        decreases raw.reminders.len() - i,
    {
        let res = check_one(&raw.reminders[i], i);
        let ghost t = rs.take(i + 1);
        proof {
            assert(t.drop_last() =~= rs.take(i as int));
            assert(t.last() == raw.reminders@[i as int]@);
        }
        match res {
            Ok(x) => {
                let ghost before = out@.map_values(|x: ExtractedReminder| x@);
                out.push(x);
                assert(out@.map_values(|x: ExtractedReminder| x@) =~= before.push(x@));
            },
            Err(e) => {
                proof {
                    lemma_error_persists(rs, i + 1);
                    assert(rs.take(rs.len() as int) =~= rs);
                }
                return Err(e);
            },
        }
        i = i + 1;
    }
    assert(rs.take(rs.len() as int) =~= rs);
    Ok(Analysis { reminders: out, reasoning: raw.reasoning.clone() })
}

} // verus!
