use vstd::prelude::*;
use crate::prompt::analysis_prompt;
use crate::reconciler::{
    apply_action, initial_run, log_entry, next_state, parse_failure, pending, transport_failure, ActionModel,
    EventModel, Phase, RunModel,
};
use crate::response::{checked_analysis, ExtractedModel, RawAnalysisModel};
use crate::store::{LogModel, ReminderModel};
use crate::text::unfenced;

verus! {

/// The store a run works against: the reminders, the id the next one gets,
/// the ledger's single slot and the interaction log.
pub struct StoreModel {
    pub reminders: Seq<ReminderModel>,
    pub next_id: int,
    pub last_text: Option<Seq<char>>,
    pub logs: Seq<LogModel>,
}

/// What the outside world answers during one run: the model's raw answer (or
/// why the call failed), and that answer decoded from JSON (or why it could
/// not be).
pub struct Outside {
    pub answer: Result<Seq<char>, Seq<char>>,
    pub decoded: Result<RawAnalysisModel, Seq<char>>,
}

pub open spec fn has_reminder(rs: Seq<ReminderModel>, id: int) -> bool {
    exists|i: int| 0 <= i < rs.len() && rs[i].id == id
}

/// The reminders with the text and tags of reminder `id` overwritten.
pub open spec fn overwrite(
    rs: Seq<ReminderModel>,
    id: int,
    text: Seq<char>,
    tags: Option<Seq<char>>,
) -> Seq<ReminderModel> {
    rs.map_values(
        |r: ReminderModel|
            if r.id == id {
                ReminderModel { text, tags, ..r }
            } else {
                r
            },
    )
}

/// A store that does what each action asks and reports it: reads give what
/// is stored, an insert adds an unresolved reminder under a fresh id, an
/// update of an absent id fails, the ledger keeps one slot, the log only
/// grows.
pub open spec fn perform(s: StoreModel, a: ActionModel, out: Outside) -> (StoreModel, EventModel) {
    match a {
        ActionModel::ReadLastText => (s, EventModel::LastText(s.last_text)),
        ActionModel::ListReminders => (s, EventModel::Reminders(s.reminders)),
        ActionModel::Analyze(_) => (s, EventModel::Analyzed(out.answer)),
        ActionModel::Decode(_) => (s, EventModel::Decoded(out.decoded)),
        ActionModel::InsertReminder { note_id, text, tags } => (
            StoreModel {
                reminders: s.reminders.push(
                    ReminderModel {
                        id: s.next_id,
                        text,
                        resolved: false,
                        resolved_at: None,
                        created_from_note_id: note_id,
                        tags,
                    },
                ),
                next_id: s.next_id + 1,
                ..s
            },
            EventModel::Stored(Ok(())),
        ),
        ActionModel::UpdateReminder { id, text, tags } => if has_reminder(s.reminders, id) {
            (
                StoreModel { reminders: overwrite(s.reminders, id, text, tags), ..s },
                EventModel::Stored(Ok(())),
            )
        } else {
            (s, EventModel::Stored(Err("no reminder has this id"@)))
        },
        ActionModel::AppendLog(e) => (
            StoreModel { logs: s.logs.push(e), ..s },
            EventModel::Stored(Ok(())),
        ),
        ActionModel::SetLastText(t) => (
            StoreModel { last_text: Some(t), ..s },
            EventModel::Stored(Ok(())),
        ),
        ActionModel::Finish(_) => (s, EventModel::Stored(Ok(()))),
    }
}

/// Runs `m` against the store for at most `fuel` actions, stopping at
/// `Finish`: the final state, the final store, and how many calls to the
/// model were made.
pub open spec fn drive(m: RunModel, s: StoreModel, out: Outside, fuel: nat) -> (
    RunModel,
    StoreModel,
    nat,
)
    decreases fuel,
{
    if fuel == 0 || pending(m) is Finish {
        (m, s, 0)
    } else {
        let done = perform(s, pending(m), out);
        let rest = drive(next_state(m, done.1), done.0, out, (fuel - 1) as nat);
        (rest.0, rest.1, rest.2 + if pending(m) is Analyze {
            1nat
        } else {
            0nat
        })
    }
}

/// Whether a run has ended well.
pub open spec fn succeeded(m: RunModel) -> bool {
    pending(m) == ActionModel::Finish(Ok(()))
}

/// Whether the model has been called already in state `m`.
pub open spec fn called(m: RunModel) -> nat {
    match m.phase {
        Phase::AwaitDecode | Phase::Applying | Phase::AwaitLog | Phase::AwaitLedger | Phase::Done => 1,
        _ => 0,
    }
}

/// Whether the log entry has been written already in state `m`.
pub open spec fn logged(m: RunModel) -> nat {
    match m.phase {
        Phase::AwaitLedger | Phase::Done => 1,
        _ => 0,
    }
}

/// A run that ended well without being skipped has recorded its text.
pub open spec fn recorded(m: RunModel, s: StoreModel) -> bool {
    &&& m.phase == Phase::Skipped ==> s.last_text == Some(m.note_text)
    &&& (m.phase == Phase::Done && m.failure is None) ==> s.last_text == Some(m.note_text)
}

proof fn lemma_drive(m: RunModel, s: StoreModel, out: Outside, fuel: nat)
    requires
        m.wf(),
        recorded(m, s),
    ensures
        ({
            let r = drive(m, s, out, fuel);
            &&& r.0.note_text == m.note_text
            &&& (m.phase != Phase::AwaitLastText && m.phase != Phase::Skipped) ==> r.0.phase
                != Phase::Skipped
            &&& recorded(r.0, r.1)
            &&& r.2 + called(m) == called(r.0)
            &&& called(r.0) <= 1
            &&& s.logs.len() <= r.1.logs.len()
            &&& r.1.logs.len() + logged(m) == s.logs.len() + logged(r.0)
        }),
    decreases fuel,
{
    if fuel == 0 || pending(m) is Finish {
    } else {
        let done = perform(s, pending(m), out);
        let m2 = next_state(m, done.1);
        assert(m2.wf());
        assert(recorded(m2, done.0));
        assert(called(m) + (if pending(m) is Analyze { 1nat } else { 0nat }) == called(m2));
        assert(done.0.logs.len() + logged(m) == s.logs.len() + logged(m2));
        lemma_drive(m2, done.0, out, (fuel - 1) as nat);
    }
}


/// Submitting the same note text twice in a row calls the model once and logs
/// once: the first run, ending well, makes one call and appends one entry;
/// the second reads the ledger, finds the text, and ends well at once,
/// leaving the store as it was.
pub proof fn lemma_same_text_is_analysed_once(
    note_id: int,
    text: Seq<char>,
    date: Seq<char>,
    second_id: int,
    second_date: Seq<char>,
    s: StoreModel,
    out: Outside,
    second_out: Outside,
    fuel: nat,
    second_fuel: nat,
)
    requires
        s.last_text != Some(text),
        succeeded(drive(initial_run(note_id, text, date), s, out, fuel).0),
        second_fuel >= 1,
    ensures
        ({
            let first = drive(initial_run(note_id, text, date), s, out, fuel);
            let second = drive(initial_run(second_id, text, second_date), first.1, second_out, second_fuel);
            &&& first.2 == 1
            &&& first.1.logs.len() == s.logs.len() + 1
            &&& second.2 == 0
            &&& second.1 == first.1
            &&& succeeded(second.0)
        }),
{
    let m = initial_run(note_id, text, date);
    let first = drive(m, s, out, fuel);
    let opened = perform(s, pending(m), out);
    let m1 = next_state(m, opened.1);
    assert(m1.phase == Phase::AwaitReminders);
    lemma_drive(m1, opened.0, out, (fuel - 1) as nat);
    assert(first == drive(m1, opened.0, out, (fuel - 1) as nat));
    let m2 = initial_run(second_id, text, second_date);
    let done = perform(first.1, pending(m2), second_out);
    assert(next_state(m2, done.1).phase == Phase::Skipped);
    assert(drive(next_state(m2, done.1), done.0, second_out, (second_fuel - 1) as nat).1 == first.1);
}

/// The ledger keeps one slot, holding the text of the last run that ended
/// well: after a run on `a` and then a run on `b`, both ending well, it holds
/// `b`.
pub proof fn lemma_ledger_holds_latest_text(
    a: Seq<char>,
    b: Seq<char>,
    first_id: int,
    second_id: int,
    date: Seq<char>,
    s: StoreModel,
    first_out: Outside,
    second_out: Outside,
    fuel: nat,
)
    requires
        succeeded(drive(initial_run(first_id, a, date), s, first_out, fuel).0),
        succeeded(
            drive(
                initial_run(second_id, b, date),
                drive(initial_run(first_id, a, date), s, first_out, fuel).1,
                second_out,
                fuel,
            ).0,
        ),
    ensures
        ({
            let first = drive(initial_run(first_id, a, date), s, first_out, fuel);
            let second = drive(initial_run(second_id, b, date), first.1, second_out, fuel);
            &&& first.1.last_text == Some(a)
            &&& second.1.last_text == Some(b)
        }),
{
    let first = drive(initial_run(first_id, a, date), s, first_out, fuel);
    lemma_drive(initial_run(first_id, a, date), s, first_out, fuel);
    lemma_drive(initial_run(second_id, b, date), first.1, second_out, fuel);
}


/// One action of a run against the store, when the run is not over.
proof fn lemma_drive_step(m: RunModel, s: StoreModel, out: Outside, fuel: nat)
    requires
        fuel > 0,
        !(pending(m) is Finish),
    ensures
        ({
            let done = perform(s, pending(m), out);
            let rest = drive(next_state(m, done.1), done.0, out, (fuel - 1) as nat);
            &&& drive(m, s, out, fuel).0 == rest.0
            &&& drive(m, s, out, fuel).1 == rest.1
        }),
{
}

/// The failed entry that a run appends to the log.
pub open spec fn failed_entry(note_id: int, prompt: Seq<char>, message: Seq<char>) -> LogModel {
    LogModel {
        note_id,
        prompt,
        response: message,
        success: false,
        reasoning: Seq::empty(),
        reminders_count: 0,
    }
}

/// When the call to the model fails, the run appends one failed entry with
/// the error, changes no reminder, leaves the ledger as it was, and ends with
/// that error.
pub proof fn lemma_transport_failure(
    note_id: int,
    text: Seq<char>,
    date: Seq<char>,
    s: StoreModel,
    out: Outside,
    fuel: nat,
)
    requires
        s.last_text != Some(text),
        out.answer is Err,
        fuel >= 4,
    ensures
        ({
            let r = drive(initial_run(note_id, text, date), s, out, fuel);
            let message = transport_failure(out.answer->Err_0);
            &&& pending(r.0) == ActionModel::Finish(Err(message))
            &&& r.1.logs == s.logs.push(
                failed_entry(note_id, analysis_prompt(text, date, s.reminders), message),
            )
            &&& r.1.reminders == s.reminders
            &&& r.1.last_text == s.last_text
        }),
{
    let m0 = initial_run(note_id, text, date);
    let d0 = perform(s, pending(m0), out);
    let m1 = next_state(m0, d0.1);
    let d1 = perform(d0.0, pending(m1), out);
    let m2 = next_state(m1, d1.1);
    let d2 = perform(d1.0, pending(m2), out);
    let m3 = next_state(m2, d2.1);
    let d3 = perform(d2.0, pending(m3), out);
    let m4 = next_state(m3, d3.1);
    assert(m3.phase == Phase::AwaitLog);
    assert(m4.phase == Phase::Done);
    lemma_drive_step(m0, s, out, fuel);
    lemma_drive_step(m1, d0.0, out, (fuel - 1) as nat);
    lemma_drive_step(m2, d1.0, out, (fuel - 2) as nat);
    lemma_drive_step(m3, d2.0, out, (fuel - 3) as nat);
    assert(drive(m4, d3.0, out, (fuel - 4) as nat).1 == d3.0);
}

/// When the model's answer cannot be decoded, the run appends one failed
/// entry whose response holds the decoding error and the answer, changes no
/// reminder, leaves the ledger as it was, and ends with that message.
pub proof fn lemma_undecodable_answer(
    note_id: int,
    text: Seq<char>,
    date: Seq<char>,
    s: StoreModel,
    out: Outside,
    fuel: nat,
)
    requires
        s.last_text != Some(text),
        out.answer is Ok,
        out.decoded is Err,
        fuel >= 5,
    ensures
        ({
            let r = drive(initial_run(note_id, text, date), s, out, fuel);
            let message = parse_failure(out.decoded->Err_0, unfenced(out.answer->Ok_0));
            &&& pending(r.0) == ActionModel::Finish(Err(message))
            &&& r.1.logs == s.logs.push(
                failed_entry(note_id, analysis_prompt(text, date, s.reminders), message),
            )
            &&& r.1.reminders == s.reminders
            &&& r.1.last_text == s.last_text
        }),
{
    let m0 = initial_run(note_id, text, date);
    let d0 = perform(s, pending(m0), out);
    let m1 = next_state(m0, d0.1);
    let d1 = perform(d0.0, pending(m1), out);
    let m2 = next_state(m1, d1.1);
    let d2 = perform(d1.0, pending(m2), out);
    let m3 = next_state(m2, d2.1);
    let d3 = perform(d2.0, pending(m3), out);
    let m4 = next_state(m3, d3.1);
    let d4 = perform(d3.0, pending(m4), out);
    let m5 = next_state(m4, d4.1);
    assert(m3.phase == Phase::AwaitDecode);
    assert(m4.phase == Phase::AwaitLog);
    assert(m5.phase == Phase::Done);
    lemma_drive_step(m0, s, out, fuel);
    lemma_drive_step(m1, d0.0, out, (fuel - 1) as nat);
    lemma_drive_step(m2, d1.0, out, (fuel - 2) as nat);
    lemma_drive_step(m3, d2.0, out, (fuel - 3) as nat);
    lemma_drive_step(m4, d3.0, out, (fuel - 4) as nat);
    assert(drive(m5, d4.0, out, (fuel - 5) as nat).1 == d4.0);
}


/// The store after applying the extracted reminders in order, or `None` when
/// one of them fails.
pub open spec fn apply_items(
    s: StoreModel,
    note_id: int,
    items: Seq<ExtractedModel>,
    out: Outside,
) -> Option<StoreModel>
    decreases items.len(),
{
    if items.len() == 0 {
        Some(s)
    } else {
        match apply_items(s, note_id, items.drop_last(), out) {
            None => None,
            Some(before) => {
                let done = perform(before, apply_action(note_id, items.last()), out);
                if done.1 == EventModel::Stored(Ok(())) {
                    Some(done.0)
                } else {
                    None
                }
            },
        }
    }
}

proof fn lemma_apply_prefix(
    s: StoreModel,
    note_id: int,
    items: Seq<ExtractedModel>,
    out: Outside,
    k: int,
)
    requires
        0 <= k <= items.len(),
        apply_items(s, note_id, items, out) is Some,
    ensures
        apply_items(s, note_id, items.take(k), out) is Some,
    decreases items.len() - k,
{
    if k < items.len() {
        let t = items.take(k + 1);
        assert(t.drop_last() =~= items.take(k));
        lemma_apply_prefix(s, note_id, items, out, k + 1);
    } else {
        assert(items.take(k) =~= items);
    }
}

/// From the application of the extracted reminders on: the run applies the
/// rest in order, logs its success, records its text and ends well.
proof fn lemma_apply_rest(m: RunModel, s0: StoreModel, s: StoreModel, out: Outside, fuel: nat)
    requires
        m.wf(),
        m.phase == Phase::Applying || (m.phase == Phase::AwaitLog && m.applied == m.items.len()),
        m.failure is None,
        apply_items(s0, m.note_id, m.items, out) is Some,
        apply_items(s0, m.note_id, m.items.take(m.applied as int), out) == Some(s),
        s.logs == s0.logs,
        fuel >= m.items.len() - m.applied + 2,
    ensures
        ({
            let r = drive(m, s, out, fuel);
            let end = apply_items(s0, m.note_id, m.items, out)->Some_0;
            &&& succeeded(r.0)
            &&& r.1.reminders == end.reminders
            &&& r.1.logs == s0.logs.push(log_entry(m))
            &&& r.1.last_text == Some(m.note_text)
        }),
    decreases m.items.len() - m.applied,
{
    let done = perform(s, pending(m), out);
    let m2 = next_state(m, done.1);
    lemma_drive_step(m, s, out, fuel);
    if m.phase == Phase::Applying {
        let k = m.applied as int;
        let t = m.items.take(k + 1);
        assert(t.drop_last() =~= m.items.take(k));
        assert(t.last() == m.items[k]);
        lemma_apply_prefix(s0, m.note_id, m.items, out, k + 1);
        assert(done.1 == EventModel::Stored(Ok(())));
        assert(apply_items(s0, m.note_id, t, out) == Some(done.0));
        if m2.phase == Phase::AwaitLog {
            assert(m.items.take(k + 1) =~= m.items);
        }
        assert(log_entry(m2) == log_entry(m));
        lemma_apply_rest(m2, s0, done.0, out, (fuel - 1) as nat);
    } else {
        assert(m.items.take(m.applied as int) =~= m.items);
        assert(m2.phase == Phase::AwaitLedger);
        let done2 = perform(done.0, pending(m2), out);
        let m3 = next_state(m2, done2.1);
        lemma_drive_step(m2, done.0, out, (fuel - 1) as nat);
        assert(m3.phase == Phase::Done);
        assert(drive(m3, done2.0, out, (fuel - 2) as nat).1 == done2.0);
    }
}

/// A run whose answer decodes and follows the schema, and whose every update
/// names an existing reminder, applies every extracted reminder in order
/// (an insert of an unresolved reminder bound to the note for each CREATE, an
/// overwrite of text and tags for each UPDATE, identical or not), appends one
/// successful entry with the prompt, the answer, the reasoning and the number
/// of extracted reminders, records the note's text and ends well.
pub proof fn lemma_answer_is_applied(
    note_id: int,
    text: Seq<char>,
    date: Seq<char>,
    s: StoreModel,
    out: Outside,
    fuel: nat,
)
    requires
        s.last_text != Some(text),
        out.answer is Ok,
        out.decoded is Ok,
        checked_analysis(out.decoded->Ok_0) is Ok,
        apply_items(s, note_id, checked_analysis(out.decoded->Ok_0)->Ok_0.reminders, out) is Some,
        fuel >= checked_analysis(out.decoded->Ok_0)->Ok_0.reminders.len() + 6,
    ensures
        ({
            let r = drive(initial_run(note_id, text, date), s, out, fuel);
            let a = checked_analysis(out.decoded->Ok_0)->Ok_0;
            &&& succeeded(r.0)
            &&& r.1.reminders == apply_items(s, note_id, a.reminders, out)->Some_0.reminders
            &&& r.1.logs == s.logs.push(
                LogModel {
                    note_id,
                    prompt: analysis_prompt(text, date, s.reminders),
                    response: unfenced(out.answer->Ok_0),
                    success: true,
                    reasoning: a.reasoning,
                    reminders_count: a.reminders.len(),
                },
            )
            &&& r.1.last_text == Some(text)
        }),
{
    let m0 = initial_run(note_id, text, date);
    let d0 = perform(s, pending(m0), out);
    let m1 = next_state(m0, d0.1);
    let d1 = perform(d0.0, pending(m1), out);
    let m2 = next_state(m1, d1.1);
    let d2 = perform(d1.0, pending(m2), out);
    let m3 = next_state(m2, d2.1);
    let d3 = perform(d2.0, pending(m3), out);
    let m4 = next_state(m3, d3.1);
    assert(m3.phase == Phase::AwaitDecode);
    assert(m4.items == checked_analysis(out.decoded->Ok_0)->Ok_0.reminders);
    assert(m4.items.take(0) =~= Seq::<ExtractedModel>::empty());
    lemma_drive_step(m0, s, out, fuel);
    lemma_drive_step(m1, d0.0, out, (fuel - 1) as nat);
    lemma_drive_step(m2, d1.0, out, (fuel - 2) as nat);
    lemma_drive_step(m3, d2.0, out, (fuel - 3) as nat);
    lemma_apply_rest(m4, s, d3.0, out, (fuel - 4) as nat);
}


/// Every reminder of the store carries a resolution time exactly when it is
/// resolved.
pub open spec fn reminders_wf(s: StoreModel) -> bool {
    forall|i: int| 0 <= i < s.reminders.len() ==> (#[trigger] s.reminders[i]).wf()
}

/// The writes a run asks for keep every reminder well formed: inserted
/// reminders are unresolved with no resolution time, and updates touch only
/// text and tags.
pub proof fn lemma_actions_keep_reminders_wf(s: StoreModel, a: ActionModel, out: Outside)
    requires
        reminders_wf(s),
    ensures
        reminders_wf(perform(s, a, out).0),
{
    let after = perform(s, a, out).0;
    assert forall|i: int| 0 <= i < after.reminders.len() implies (#[trigger] after.reminders[i]).wf() by {
        match a {
            ActionModel::InsertReminder { .. } => {
                if i < s.reminders.len() {
                    assert(after.reminders[i] == s.reminders[i]);
                }
            },
            ActionModel::UpdateReminder { .. } => {
                assert(s.reminders[i].wf());
            },
            _ => {},
        }
    }
}

} // verus!
