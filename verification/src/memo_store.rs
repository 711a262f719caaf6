//! How memos and their reminders are laid out in the store: the reminder row and its
//! reading back, the search pattern, the list preview, and the store's memo errors.
use vstd::prelude::*;
use crate::error::DomainError;
use crate::memo_reminder::{
    frequency_text, memo_reminder_data_error, parse_frequency, reminder_frequency, reminder_status,
    reminder_status_text, same_schedule, MemoReminderFrequency, MemoReminderInput, MemoReminderRule,
    MemoReminderStatus,
};
use crate::text::{decimal, opt_text, prefix, push_char, push_decimal, push_text, trim};

verus! {

pub fn memo_save_error() -> (e: DomainError)
    ensures
        e.code@ == "MEMO_SAVE_FAILED"@,
        e.message@ == "memo could not be saved"@,
        e.field is None,
{
    DomainError::new("MEMO_SAVE_FAILED", "memo could not be saved", None)
}

pub fn memo_not_found_error() -> (e: DomainError)
    ensures
        e.code@ == "MEMO_NOT_FOUND"@,
        e.message@ == "memo was not found"@,
        e.field is None,
{
    DomainError::new("MEMO_NOT_FOUND", "memo was not found", None)
}

pub fn memo_delete_error() -> (e: DomainError)
    ensures
        e.code@ == "MEMO_DELETE_FAILED"@,
        e.message@ == "memo could not be deleted"@,
        e.field is None,
{
    DomainError::new("MEMO_DELETE_FAILED", "memo could not be deleted", None)
}

/// The text with `\`, `%` and `_` escaped by a backslash, so that a `LIKE` pattern built
/// from it matches the text literally.
pub open spec fn escaped(s: Seq<char>) -> Seq<char>
    decreases s.len(),
{
    if s.len() == 0 {
        s
    } else {
        let c = s.last();
        let tail = if c == '\\' || c == '%' || c == '_' { seq!['\\', c] } else { seq![c] };
        escaped(s.drop_last()) + tail
    }
}

pub fn escape_like(value: &str) -> (r: String)
    ensures
        r@ == escaped(value@),
{
    let chars = crate::text::chars_of(value);
    let mut out = String::new();
    let mut i: usize = 0;
    while i < chars.len()
        invariant
            i <= chars@.len(),
            chars@ == value@,
            out@ == escaped(chars@.take(i as int)),
        decreases chars@.len() - i,
    {
        let c = chars[i];
        proof {
            assert(chars@.take(i + 1).drop_last() =~= chars@.take(i as int));
            assert(chars@.take(i + 1).last() == c);
        }
        if c == '\\' || c == '%' || c == '_' {
            push_char(&mut out, '\\');
        }
        push_char(&mut out, c);
        assert(out@ =~= escaped(chars@.take(i + 1)));
        i += 1;
    }
    assert(chars@.take(i as int) =~= value@);
    out
}

/// The list preview of a memo body: its first 120 characters after trimming.
pub fn body_preview(body: &str) -> (r: String)
    ensures
        r@ == prefix(trim(body@), 120),
{
    let t = crate::text::trimmed(body);
    let chars = crate::text::chars_of(t.as_str());
    let n: usize = if chars.len() < 120 { chars.len() } else { 120 };
    assert(chars@.subrange(0, n as int) =~= prefix(trim(body@), 120));
    crate::text::string_of(&chars, 0, n)
}

/// The JSON array of the numbers, as `serde_json::to_string` writes a `Vec<u8>`:
/// `[` and `]` round the decimal numerals, separated by commas.
pub open spec fn json_items(s: Seq<u8>) -> Seq<char>
    decreases s.len(),
{
    if s.len() == 0 {
        Seq::empty()
    } else if s.len() == 1 {
        decimal(s[0] as nat)
    } else {
        json_items(s.drop_last()) + seq![','] + decimal(s.last() as nat)
    }
}

pub open spec fn json_u8_array(s: Seq<u8>) -> Seq<char> {
    seq!['['] + json_items(s) + seq![']']
}

/// The weekdays as the JSON array that the reminder row stores.
pub fn weekdays_json(v: &Vec<u8>) -> (r: String)
    ensures
        r@ == json_u8_array(v@),
{
    let mut out = String::new();
    push_char(&mut out, '[');
    let mut i: usize = 0;
    while i < v.len()
        invariant
            i <= v@.len(),
            out@ == seq!['['] + json_items(v@.take(i as int)),
        decreases v@.len() - i,
    {
        proof {
            assert(v@.take(i + 1).drop_last() =~= v@.take(i as int));
            assert(v@.take(i + 1).last() == v@[i as int]);
        }
        if i > 0 {
            push_char(&mut out, ',');
        }
        push_decimal(&mut out, v[i] as u64);
        proof {
            if i == 0 {
                assert(v@.take(1) =~= seq![v@[0]]);
            }
        }
        assert(out@ =~= seq!['['] + json_items(v@.take(i + 1)));
        i += 1;
    }
    push_char(&mut out, ']');
    assert(v@.take(i as int) =~= v@);
    assert(out@ =~= json_u8_array(v@));
    out
}

/// The list of numbers `serde_json::from_str::<Vec<u8>>` reads from the text, if it reads one.
pub uninterp spec fn weekdays_from_json(text: Seq<char>) -> Option<Seq<u8>>;

/// `serde_json::from_str::<Vec<u8>>`: what it reads from the text is named; the array
/// text that `serde_json::to_string` writes for a list is read back as that list.
#[verifier::external_body]
fn decode_weekdays(text: &str) -> (r: Option<Vec<u8>>)
    ensures
        match r {
            Some(v) => weekdays_from_json(text@) == Some(v@),
            None => weekdays_from_json(text@) is None,
        },
        r is Some || forall|w: Seq<u8>| #[trigger] json_u8_array(w) != text@,
        r matches Some(v) ==> forall|w: Seq<u8>| #[trigger] json_u8_array(w) == text@ ==> v@ == w,
{
    serde_json::from_str::<Vec<u8>>(text).ok()
}

/// The position of the first `'T'` at or after `i`, or the length when there is none.
pub open spec fn first_t(s: Seq<char>, i: int) -> int
    decreases s.len() - i,
{
    if i >= s.len() {
        s.len() as int
    } else if s[i] == 'T' {
        i
    } else {
        first_t(s, i + 1)
    }
}

proof fn lemma_first_t(s: Seq<char>, i: int)
    requires
        0 <= i <= s.len(),
    ensures
        i <= first_t(s, i) <= s.len(),
        first_t(s, i) < s.len() ==> s[first_t(s, i)] == 'T',
    decreases s.len() - i,
{
    if i < s.len() && s[i] != 'T' {
        lemma_first_t(s, i + 1);
    }
}

/// A reminder as one row of the store.
#[derive(Debug)]
pub struct StoredReminder {
    pub id: String,
    pub memo_id: String,
    /// `once` or `recurring`.
    pub schedule_kind: String,
    pub frequency: Option<String>,
    pub interval: Option<u32>,
    pub weekdays_json: Option<String>,
    pub monthly_day: Option<u8>,
    pub local_time: String,
    pub starts_on: String,
    pub ends_on: Option<String>,
    pub timezone: String,
    pub next_scheduled_for: Option<String>,
    pub status: String,
    pub created_at: String,
    pub updated_at: String,
}

/// A one-off schedule can be stored: its local date-time has a `T` between date and time.
pub open spec fn storable(rule: MemoReminderRule) -> bool {
    match rule.schedule {
        MemoReminderInput::Once { scheduled_local, .. } =>
            first_t(scheduled_local@, 0) < scheduled_local@.len(),
        MemoReminderInput::Recurring { .. } => true,
    }
}

/// The row that stores `rule` for memo `memo_id`: a one-off schedule is split at its first
/// `T` into date and time; a recurring one keeps its parts, with the weekdays as JSON.
pub open spec fn stored_image(memo_id: Seq<char>, rule: MemoReminderRule, s: StoredReminder) -> bool {
    &&& s.id@ == rule.id@
    &&& s.memo_id@ == memo_id
    &&& opt_text(s.next_scheduled_for) == opt_text(rule.next_scheduled_for)
    &&& s.status@ == reminder_status_text(rule.status)
    &&& s.created_at@ == rule.created_at@
    &&& s.updated_at@ == rule.updated_at@
    &&& match rule.schedule {
        MemoReminderInput::Once { scheduled_local, timezone } => {
            let k = first_t(scheduled_local@, 0);
            &&& k < scheduled_local@.len()
            &&& s.schedule_kind@ == "once"@
            &&& s.frequency is None
            &&& s.interval is None
            &&& s.weekdays_json is None
            &&& s.monthly_day is None
            &&& s.starts_on@ == scheduled_local@.take(k)
            &&& s.local_time@ == scheduled_local@.skip(k + 1)
            &&& s.ends_on is None
            &&& s.timezone@ == timezone@
        },
        MemoReminderInput::Recurring { frequency, interval, weekdays, monthly_day, local_time, starts_on, ends_on, timezone } => {
            &&& s.schedule_kind@ == "recurring"@
            &&& opt_text(s.frequency) == Some(frequency_text(frequency))
            &&& s.interval == Some(interval)
            &&& opt_text(s.weekdays_json) == Some(json_u8_array(weekdays@))
            &&& s.monthly_day == monthly_day
            &&& s.local_time@ == local_time@
            &&& s.starts_on@ == starts_on@
            &&& opt_text(s.ends_on) == opt_text(ends_on)
            &&& s.timezone@ == timezone@
        },
    }
}

fn copy_text(o: &Option<String>) -> (r: Option<String>)
    ensures
        opt_text(r) == opt_text(*o),
{
    match o {
        Some(s) => Some(s.clone()),
        None => None,
    }
}

/// The row for a memo's reminder. A one-off schedule without a `T` cannot be stored.
pub fn to_stored(memo_id: &str, rule: &MemoReminderRule) -> (r: Result<StoredReminder, DomainError>)
    ensures
        r is Ok <==> storable(*rule),
        r matches Ok(s) ==> stored_image(memo_id@, *rule, s),
        r matches Err(e) ==> e.code@ == "MEMO_SAVE_FAILED"@,
{
    let id = rule.id.clone();
    let memo = String::from_str(memo_id);
    let next = copy_text(&rule.next_scheduled_for);
    let status = String::from_str(reminder_status(rule.status));
    let created_at = rule.created_at.clone();
    let updated_at = rule.updated_at.clone();
    match &rule.schedule {
        MemoReminderInput::Once { scheduled_local, timezone } => {
            let chars = crate::text::chars_of(scheduled_local.as_str());
            let mut k: usize = 0;
            while k < chars.len() && chars[k] != 'T'
                invariant
                    k <= chars@.len(),
                    chars@ == scheduled_local@,
                    first_t(chars@, 0) == first_t(chars@, k as int),
                decreases chars@.len() - k,
            {
                k += 1;
            }
            proof { lemma_first_t(chars@, 0); }
            if k == chars.len() {
                return Err(memo_save_error());
            }
            assert(chars@.subrange(0, k as int) =~= scheduled_local@.take(k as int));
            assert(chars@.subrange(k + 1, chars@.len() as int) =~= scheduled_local@.skip(k + 1));
            Ok(StoredReminder {
                id,
                memo_id: memo,
                schedule_kind: String::from_str("once"),
                frequency: None,
                interval: None,
                weekdays_json: None,
                monthly_day: None,
                local_time: crate::text::string_of(&chars, k + 1, chars.len()),
                starts_on: crate::text::string_of(&chars, 0, k),
                ends_on: None,
                timezone: timezone.clone(),
                next_scheduled_for: next,
                status,
                created_at,
                updated_at,
            })
        },
        MemoReminderInput::Recurring { frequency, interval, weekdays, monthly_day, local_time, starts_on, ends_on, timezone } => {
            Ok(StoredReminder {
                id,
                memo_id: memo,
                schedule_kind: String::from_str("recurring"),
                frequency: Some(String::from_str(reminder_frequency(*frequency))),
                interval: Some(*interval),
                weekdays_json: Some(weekdays_json(weekdays)),
                monthly_day: *monthly_day,
                local_time: local_time.clone(),
                starts_on: starts_on.clone(),
                ends_on: copy_text(ends_on),
                timezone: timezone.clone(),
                next_scheduled_for: next,
                status,
                created_at,
                updated_at,
            })
        },
    }
}

/// The frequency a stored name denotes.
pub open spec fn frequency_of(name: Option<Seq<char>>) -> Option<MemoReminderFrequency> {
    match name {
        Some(n) => if n == frequency_text(MemoReminderFrequency::Daily) {
            Some(MemoReminderFrequency::Daily)
        } else if n == frequency_text(MemoReminderFrequency::Weekdays) {
            Some(MemoReminderFrequency::Weekdays)
        } else if n == frequency_text(MemoReminderFrequency::Weekly) {
            Some(MemoReminderFrequency::Weekly)
        } else if n == frequency_text(MemoReminderFrequency::Monthly) {
            Some(MemoReminderFrequency::Monthly)
        } else {
            None
        },
        None => None,
    }
}

/// The reminder status a stored name denotes.
pub open spec fn status_of(name: Seq<char>) -> Option<MemoReminderStatus> {
    if name == reminder_status_text(MemoReminderStatus::Active) {
        Some(MemoReminderStatus::Active)
    } else if name == reminder_status_text(MemoReminderStatus::Completed) {
        Some(MemoReminderStatus::Completed)
    } else if name == reminder_status_text(MemoReminderStatus::Cancelled) {
        Some(MemoReminderStatus::Cancelled)
    } else {
        None
    }
}

fn parse_status(name: &String) -> (r: Option<MemoReminderStatus>)
    ensures
        r == status_of(name@),
{
    if crate::text::same_text(name.as_str(), reminder_status(MemoReminderStatus::Active)) {
        Some(MemoReminderStatus::Active)
    } else if crate::text::same_text(name.as_str(), reminder_status(MemoReminderStatus::Completed)) {
        Some(MemoReminderStatus::Completed)
    } else if crate::text::same_text(name.as_str(), reminder_status(MemoReminderStatus::Cancelled)) {
        Some(MemoReminderStatus::Cancelled)
    } else {
        None
    }
}

/// A row reads back as a reminder: its kind is known, a recurring row has a known
/// frequency, an interval and readable weekdays, and its status is known.
pub open spec fn readable_row(s: StoredReminder) -> bool {
    &&& status_of(s.status@) is Some
    &&& (s.schedule_kind@ == "once"@ || (s.schedule_kind@ == "recurring"@
        && frequency_of(opt_text(s.frequency)) is Some
        && s.interval is Some
        && (s.weekdays_json matches Some(t) ==> weekdays_from_json(t@) is Some)))
}

/// The reminder a readable row denotes.
pub open spec fn read_back(s: StoredReminder, p: MemoReminderRule) -> bool {
    &&& p.id@ == s.id@
    &&& p.memo_id@ == s.memo_id@
    &&& opt_text(p.next_scheduled_for) == opt_text(s.next_scheduled_for)
    &&& status_of(s.status@) == Some(p.status)
    &&& p.created_at@ == s.created_at@
    &&& p.updated_at@ == s.updated_at@
    &&& if s.schedule_kind@ == "once"@ {
        p.schedule matches MemoReminderInput::Once { scheduled_local, timezone }
            && scheduled_local@ == s.starts_on@ + "T"@ + s.local_time@
            && timezone@ == s.timezone@
    } else {
        p.schedule matches MemoReminderInput::Recurring { frequency, interval, weekdays, monthly_day, local_time, starts_on, ends_on, timezone }
            && frequency_of(opt_text(s.frequency)) == Some(frequency)
            && s.interval == Some(interval)
            && weekdays@ == (match s.weekdays_json {
                Some(t) => weekdays_from_json(t@)->0,
                None => Seq::empty(),
            })
            && monthly_day == s.monthly_day
            && local_time@ == s.local_time@
            && starts_on@ == s.starts_on@
            && opt_text(ends_on) == opt_text(s.ends_on)
            && timezone@ == s.timezone@
    }
}

/// Reads a reminder row back. A row of unknown kind, frequency or status, a recurring row
/// without an interval, or unreadable weekdays is corrupt.
pub fn parse_reminder(stored: StoredReminder) -> (r: Result<MemoReminderRule, DomainError>)
    ensures
        r is Ok <==> readable_row(stored),
        r matches Ok(p) ==> read_back(stored, p),
        r matches Err(e) ==> e.code@ == "MEMO_REMINDER_DATA_INVALID"@ && e.message@ == "stored memo reminder is invalid"@,
        forall|m: Seq<char>, rule: MemoReminderRule| #[trigger] stored_image(m, rule, stored) ==> restored(r, rule, m),
{
    proof {
        reveal_strlit("once");
        reveal_strlit("recurring");
        assert("once"@.len() == 4 && "recurring"@.len() == 9);
        lemma_status_of();
        lemma_frequency_of(opt_text(stored.frequency));
    }
    let ghost row = stored;
    let status = match parse_status(&stored.status) {
        Some(s) => s,
        None => {
            assert forall|m: Seq<char>, rule: MemoReminderRule| !stored_image(m, rule, row) by {
                if stored_image(m, rule, row) {
                    assert(status_of(reminder_status_text(rule.status)) == Some(rule.status));
                }
            }
            return Err(memo_reminder_data_error());
        },
    };
    let StoredReminder {
        id, memo_id, schedule_kind, frequency, interval, weekdays_json, monthly_day, local_time,
        starts_on, ends_on, timezone, next_scheduled_for, status: _, created_at, updated_at,
    } = stored;
    let schedule = if crate::text::same_text(schedule_kind.as_str(), "once") {
        let mut scheduled_local = starts_on;
        push_text(&mut scheduled_local, "T");
        push_text(&mut scheduled_local, local_time.as_str());
        MemoReminderInput::Once { scheduled_local, timezone }
    } else if crate::text::same_text(schedule_kind.as_str(), "recurring") {
        let f = match &frequency {
            Some(f) => parse_frequency(Some(f.as_str())),
            None => parse_frequency(None),
        };
        let f = match f {
            Ok(f) => f,
            Err(_) => {
                assert forall|m: Seq<char>, rule: MemoReminderRule| !stored_image(m, rule, row) by {
                    if stored_image(m, rule, row) {
                        assert(rule.schedule is Recurring);
                    }
                }
                return Err(memo_reminder_data_error());
            },
        };
        let interval = match interval {
            Some(i) => i,
            None => {
                assert forall|m: Seq<char>, rule: MemoReminderRule| !stored_image(m, rule, row) by {
                    if stored_image(m, rule, row) {
                        assert(rule.schedule is Recurring);
                    }
                }
                return Err(memo_reminder_data_error());
            },
        };
        let weekdays = match &weekdays_json {
            Some(t) => match decode_weekdays(t.as_str()) {
                Some(w) => w,
                None => {
                    assert forall|m: Seq<char>, rule: MemoReminderRule| !stored_image(m, rule, row) by {
                        if stored_image(m, rule, row) {
                            assert(rule.schedule is Recurring);
                            let w = rule.schedule->weekdays@;
                            assert(json_u8_array(w) == t@);
                        }
                    }
                    return Err(memo_reminder_data_error());
                },
            },
            None => Vec::new(),
        };
        MemoReminderInput::Recurring {
            frequency: f,
            interval,
            weekdays,
            monthly_day,
            local_time,
            starts_on,
            ends_on,
            timezone,
        }
    } else {
        assert forall|m: Seq<char>, rule: MemoReminderRule| !stored_image(m, rule, row) by {
            if stored_image(m, rule, row) {
                assert(rule.schedule is Once || rule.schedule is Recurring);
            }
        }
        return Err(memo_reminder_data_error());
    };
    let result = MemoReminderRule { id, memo_id, schedule, next_scheduled_for, status, created_at, updated_at };
    proof {
        assert forall|m: Seq<char>, rule: MemoReminderRule| stored_image(m, rule, row)
            implies restored(Ok::<MemoReminderRule, DomainError>(result), rule, m) by {
            assert(status_of(reminder_status_text(rule.status)) == Some(rule.status));
            match rule.schedule {
                MemoReminderInput::Once { scheduled_local, timezone } => {
                    let sl = scheduled_local@;
                    let k = first_t(sl, 0);
                    lemma_first_t(sl, 0);
                    reveal_strlit("T");
                    assert(sl.take(k) + "T"@ + sl.skip(k + 1) =~= sl);
                    assert(same_schedule(result.schedule, rule.schedule));
                },
                MemoReminderInput::Recurring { frequency: fr, .. } => {
                    assert(frequency_of(Some(frequency_text(fr))) == Some(fr));
                    assert(same_schedule(result.schedule, rule.schedule));
                },
            }
        }
    }
    Ok(result)
}

/// The reminder read back is the one that was stored for memo `memo_id`.
pub open spec fn restored(r: Result<MemoReminderRule, DomainError>, rule: MemoReminderRule, memo_id: Seq<char>) -> bool {
    r matches Ok(p) && {
        &&& p.id@ == rule.id@
        &&& p.memo_id@ == memo_id
        &&& same_schedule(p.schedule, rule.schedule)
        &&& opt_text(p.next_scheduled_for) == opt_text(rule.next_scheduled_for)
        &&& p.status == rule.status
        &&& p.created_at@ == rule.created_at@
        &&& p.updated_at@ == rule.updated_at@
    }
}

proof fn lemma_status_of()
    ensures
        forall|s: MemoReminderStatus| #[trigger] status_of(reminder_status_text(s)) == Some(s),
{
    reveal_strlit("active");
    reveal_strlit("completed");
    reveal_strlit("cancelled");
    assert forall|s: MemoReminderStatus| #[trigger] status_of(reminder_status_text(s)) == Some(s) by {
        assert("active"@.len() == 6 && "completed"@.len() == 9 && "cancelled"@.len() == 9);
        assert("completed"@[1] != "cancelled"@[1]);
    }
}

proof fn lemma_frequency_of(name: Option<Seq<char>>)
    ensures
        frequency_of(name) matches Some(f) ==> name == Some(frequency_text(f)),
        frequency_of(name) is None ==> (name is None || (name matches Some(n)
            && forall|f: MemoReminderFrequency| frequency_text(f) != n)),
        forall|f: MemoReminderFrequency| #[trigger] frequency_of(Some(frequency_text(f))) == Some(f),
{
    reveal_strlit("daily");
    reveal_strlit("weekdays");
    reveal_strlit("weekly");
    reveal_strlit("monthly");
    assert forall|f: MemoReminderFrequency| #[trigger] frequency_of(Some(frequency_text(f))) == Some(f) by {
        assert("daily"@.len() == 5 && "weekdays"@.len() == 8 && "weekly"@.len() == 6 && "monthly"@.len() == 7);
        assert("weekdays"@ != "weekly"@) by {
            assert("weekdays"@[6] == 'y');
            assert("weekly"@.len() == 6);
        }
    }
}

/// A tag attached to a memo.
#[derive(Debug)]
pub struct MemoTag {
    pub id: String,
    pub name: String,
}

/// A memo with its tags, reminder and the title it is shown under.
#[derive(Debug)]
pub struct MemoRecord {
    pub id: String,
    pub title: String,
    pub body: String,
    pub display_title: String,
    pub tags: Vec<MemoTag>,
    pub pinned_at: Option<String>,
    pub reminder: Option<MemoReminderRule>,
    pub created_at: String,
    pub updated_at: String,
}

/// A memo as the list shows it.
#[derive(Debug)]
pub struct MemoSummary {
    pub id: String,
    pub display_title: String,
    pub body_preview: String,
    pub tags: Vec<MemoTag>,
    pub pinned_at: Option<String>,
    pub reminder: Option<MemoReminderRule>,
    pub updated_at: String,
}

/// A memo as read from the store: its core, its tags, and its reminder row read back. A
/// corrupt reminder row makes the memo unreadable.
pub fn memo_record(core: crate::memo::MemoCoreRecord, tags: Vec<MemoTag>, stored: Option<StoredReminder>,
    untitled_label: &str) -> (r: Result<MemoRecord, DomainError>)
    ensures
        r is Ok <==> (stored matches Some(s) ==> readable_row(s)),
        r matches Err(e) ==> e.code@ == "MEMO_REMINDER_DATA_INVALID"@,
        r matches Ok(m) ==> {
            &&& m.id == core.id
            &&& m.title == core.title
            &&& m.body == core.body
            &&& m.display_title@ == crate::memo::display_title_of(core.title@, core.body@, untitled_label@)
            &&& m.tags == tags
            &&& m.pinned_at == core.pinned_at
            &&& m.created_at == core.created_at
            &&& m.updated_at == core.updated_at
            &&& match stored {
                Some(s) => m.reminder matches Some(p) && read_back(s, p),
                None => m.reminder is None,
            }
        },
{
    let reminder = match stored {
        Some(s) => match parse_reminder(s) {
            Ok(p) => Some(p),
            Err(e) => return Err(e),
        },
        None => None,
    };
    let display_title = crate::memo::MemoService::display_title(core.title.as_str(), core.body.as_str(), untitled_label);
    Ok(MemoRecord {
        id: core.id,
        title: core.title,
        body: core.body,
        display_title,
        tags,
        pinned_at: core.pinned_at,
        reminder,
        created_at: core.created_at,
        updated_at: core.updated_at,
    })
}

/// The list entry of a memo: its preview is the first 120 characters of the trimmed body.
pub fn memo_summary(memo: MemoRecord) -> (s: MemoSummary)
    ensures
        s.id == memo.id,
        s.display_title == memo.display_title,
        s.body_preview@ == prefix(trim(memo.body@), 120),
        s.tags == memo.tags,
        s.pinned_at == memo.pinned_at,
        s.reminder == memo.reminder,
        s.updated_at == memo.updated_at,
{
    let preview = body_preview(memo.body.as_str());
    MemoSummary {
        id: memo.id,
        display_title: memo.display_title,
        body_preview: preview,
        tags: memo.tags,
        pinned_at: memo.pinned_at,
        reminder: memo.reminder,
        updated_at: memo.updated_at,
    }
}

/// A due reminder row with its memo's title and body: the reminder read back and the title
/// the memo is shown under.
pub fn due_reminder(stored: StoredReminder, title: &str, body: &str, untitled_label: &str)
    -> (r: Result<crate::memo_reminder::DueMemoReminder, DomainError>)
    ensures
        r is Ok <==> readable_row(stored),
        r matches Ok(d) ==> read_back(stored, d.reminder)
            && d.display_title@ == crate::memo::display_title_of(title@, body@, untitled_label@),
        r matches Err(e) ==> e.code@ == "MEMO_REMINDER_DATA_INVALID"@,
{
    let reminder = parse_reminder(stored)?;
    let display_title = crate::memo::MemoService::display_title(title, body, untitled_label);
    Ok(crate::memo_reminder::DueMemoReminder { reminder, display_title })
}

} // verus!
