use vstd::prelude::*;
use crate::store::{Reminder, ReminderModel, reminders_model};
use crate::text::{decimal, push_decimal};

verus! {

/// The prompt up to the current date.
pub const PROMPT_OPENING: &'static str = "You are analyzing a note to extract actionable reminders. Today's date is ";

/// What follows the date: the fields to extract, the date patterns and tag
/// syntax to recognise, the rules against duplicates, and the answer schema.
pub const PROMPT_INSTRUCTIONS: &'static str = ".

Analyze this note and extract any tasks, reminders, or action items. For each one, determine:
1. The reminder text (what needs to be done)
2. The due date (if mentioned or implied)
3. How many hours before the due date to notify the user
4. Tags (if the user ends a sentence with --[comma separated list])

Common patterns to recognize:
- \"before eow\" / \"by end of week\" = Friday of current week
- \"before eom\" / \"by end of month\" = last day of month
- \"tomorrow\" = next day
- \"today\" / \"eod\" = same day
- \"next week\" = 7 days from now
- Specific dates like \"Dec 20\" or \"12/20\"
- No deadline mentioned = null for due_date

For tags:
- If a sentence ends with --[tag1, tag2, tag3], extract those as tags,
- Remove the --[tags] part from the reminder text
- Store tags as a comma-separated string like \"tag1,tag2,tag3\"
- Example: \"Call John about the project --[work, urgent]\" should extract tags \"work,urgent\" and text \"Call John about the project\"
- If no tags are specified, use null
- Note that the user may provide tags in a different format em dash or double dash or single dash, use context to understand what is a tag

CRITICAL DUPLICATE DETECTION RULES:
- If a reminder already exists with the EXACT SAME text and tags, DO NOT include it in your response at all (no CREATE, no UPDATE)
- ONLY use UPDATE action if the tags have actually CHANGED (different tags than what currently exists)
- If the reminder text and tags are identical to an existing reminder, simply omit it from your response - this is not an actionable change
- Do NOT update a reminder just to \"confirm\" that tags remain the same - that's a waste of database operations

For notify_before_hours:
- Same day tasks: 0 hours (notify immediately when due)
- Tomorrow tasks: 12 hours (notify evening before)
- This week tasks: 24 hours (notify day before)
- Longer term: 48 hours (notify 2 days before)

Respond ONLY with valid JSON in this exact format, just straight JSON, no template literals or anything else:
{
  \"reminders\": [
    {
      \"text\": \"Message Jon about the project (due date: 2025-12-20) (notify before: 24 hours)\",
      \"action\": \"CREATE\" | \"UPDATE\",
      \"update_id\": 1,
      \"tags\": \"work,urgent\"
    }
  ],
  \"reasoning\": \"Explain your decision here - why you extracted these reminders, or why you found no actionable items in the note.\"
}

";

/// What follows the existing reminders, up to the note itself.
pub const PROMPT_CLOSING: &'static str = "

If there are no actionable items, respond with:
{\"reminders\": [], \"reasoning\": \"No actionable tasks or deadlines found in this note.\"}

Note to analyze:
";

/// Heads the list of existing reminders.
pub const REMINDERS_HEADER: &'static str = "These are the existing reminders, dont create any duplicates: \n";

/// The tags of a reminder as shown to the model: empty when there are none.
pub open spec fn tags_text(t: Option<Seq<char>>) -> Seq<char> {
    match t {
        Some(x) => x,
        None => Seq::empty(),
    }
}

/// One existing reminder as shown to the model:
/// `<id>: <text> (existing tags: <tags>)`.
pub open spec fn reminder_line(r: ReminderModel) -> Seq<char> {
    decimal(r.id) + ": "@ + r.text + " (existing tags: "@ + tags_text(r.tags) + ")"@
}

/// The lines of the existing reminders, joined by newlines.
pub open spec fn reminder_lines(rs: Seq<ReminderModel>) -> Seq<char>
    decreases rs.len(),
{
    if rs.len() == 0 {
        Seq::empty()
    } else if rs.len() == 1 {
        reminder_line(rs[0])
    } else {
        reminder_lines(rs.drop_last()) + "\n"@ + reminder_line(rs.last())
    }
}

/// The part of the prompt that lists the existing reminders; empty when there
/// are none.
pub open spec fn reminders_section(rs: Seq<ReminderModel>) -> Seq<char> {
    if rs.len() == 0 {
        Seq::empty()
    } else {
        REMINDERS_HEADER@ + reminder_lines(rs)
    }
}

/// The prompt that asks the model to extract reminders from a note.
pub open spec fn analysis_prompt(
    note_text: Seq<char>,
    current_date: Seq<char>,
    reminders: Seq<ReminderModel>,
) -> Seq<char> {
    PROMPT_OPENING@ + current_date + PROMPT_INSTRUCTIONS@ + reminders_section(reminders)
        + PROMPT_CLOSING@ + note_text + "\n"@
}

fn push_reminder_line(s: &mut String, r: &Reminder)
    ensures
        final(s)@ == old(s)@ + reminder_line(r@),
{
    push_decimal(s, r.id);
    s.append(": ");
    s.append(r.text.as_str());
    s.append(" (existing tags: ");
    match &r.tags {
        Some(t) => s.append(t.as_str()),
        None => {},
    }
    s.append(")");
    assert(final(s)@ =~= old(s)@ + reminder_line(r@));
}

/// Builds the prompt for a note, given today's date as it should be shown to
/// the model and the reminders that exist now.
pub fn build_analysis_prompt(note_text: &str, current_date: &str, reminders: &Vec<Reminder>) -> (r:
    String)
    ensures
        r@ == analysis_prompt(note_text@, current_date@, reminders_model(reminders@)),
{
    let ghost rs = reminders_model(reminders@);
    let mut section = String::new();
    if reminders.len() > 0 {
        section.append(REMINDERS_HEADER);
        let mut i: usize = 0;
        while i < reminders.len()
            invariant
                rs == reminders_model(reminders@),
                0 <= i <= reminders.len(),
                i == 0 ==> section@ == REMINDERS_HEADER@,
                i > 0 ==> section@ == REMINDERS_HEADER@ + reminder_lines(rs.take(i as int)),
            decreases reminders.len() - i,
        {
            let ghost before = section@;
            if i > 0 {
                section.append("\n");
            }
            push_reminder_line(&mut section, &reminders[i]);
            proof {
                let t = rs.take(i + 1);
                assert(t.drop_last() =~= rs.take(i as int));
                assert(t.last() == reminders@[i as int]@);
                if i == 0 {
                    assert(section@ =~= REMINDERS_HEADER@ + reminder_lines(t));
                } else {
                    assert(section@ =~= REMINDERS_HEADER@ + reminder_lines(t));
                }
            }
            i = i + 1;
        }
        assert(rs.take(reminders.len() as int) =~= rs);
    }
    let mut prompt = String::new();
    prompt.append(PROMPT_OPENING);
    prompt.append(current_date);
    prompt.append(PROMPT_INSTRUCTIONS);
    prompt.append(section.as_str());
    prompt.append(PROMPT_CLOSING);
    prompt.append(note_text);
    prompt.append("\n");
    assert(prompt@ =~= analysis_prompt(note_text@, current_date@, rs));
    prompt
}

} // verus!
