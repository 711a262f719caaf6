//! Backups: which format versions can be read, the checksum recorded for a backup file,
//! and the names and history entries of the files written.
use vstd::prelude::*;
use crate::error::{fails_on, DomainError};
use crate::text::{decimal, push_char, push_decimal, push_text, same_text};
use crate::time::UtcInstant;
use sha2::{Digest, Sha256};

verus! {

/// The version before memos were part of the backup.
pub const LEGACY_BACKUP_FORMAT_VERSION: u32 = 1;
/// The version written today.
pub const CURRENT_BACKUP_FORMAT_VERSION: u32 = 2;

/// A backup file that was written, as the history lists it.
#[derive(Debug)]
pub struct BackupHistoryEntry {
    pub id: String,
    /// `manual` or `pre_restore`.
    pub kind: String,
    pub path: String,
    pub format_version: u32,
    pub checksum: String,
    pub created_at: String,
}

fn backup_error(code: &str, message: String, field: Option<&str>) -> (e: DomainError)
    ensures
        e.code@ == code@,
        e.message@ == message@,
        field is None ==> e.field is None,
        field matches Some(f) ==> e.field matches Some(g) && g@ == f@,
{
    let field = match field {
        Some(f) => Some(String::from_str(f)),
        None => None,
    };
    DomainError { code: String::from_str(code), message, field }
}

/// The answer to a declared format version: it must be a number that fits 32 bits, and one
/// of the versions this build reads.
pub open spec fn version_outcome(declared: Option<u64>, r: Result<u32, DomainError>) -> bool {
    match declared {
        None => r matches Err(e) && e.code@ == "BACKUP_FORMAT_INVALID"@
            && e.message@ == "formatVersion must be a positive integer"@
            && (e.field matches Some(f) && f@ == "formatVersion"@),
        Some(v) => if v > u32::MAX {
            r matches Err(e) && e.code@ == "BACKUP_FORMAT_INVALID"@
                && e.message@ == "formatVersion must be a positive integer"@
                && (e.field matches Some(f) && f@ == "formatVersion"@)
        } else if v == LEGACY_BACKUP_FORMAT_VERSION || v == CURRENT_BACKUP_FORMAT_VERSION {
            r == Ok::<u32, DomainError>(v as u32)
        } else {
            r matches Err(e) && e.code@ == "BACKUP_VERSION_UNSUPPORTED"@
                && e.message@ == "unsupported backup format version: "@ + decimal(v as nat)
                && (e.field matches Some(f) && f@ == "formatVersion"@)
        },
    }
}

/// The format version a backup declares, checked.
pub fn check_format_version(declared: Option<u64>) -> (r: Result<u32, DomainError>)
    ensures
        version_outcome(declared, r),
{
    let v = match declared {
        Some(v) if v <= u32::MAX as u64 => v as u32,
        _ => return Err(backup_error(
            "BACKUP_FORMAT_INVALID",
            String::from_str("formatVersion must be a positive integer"),
            Some("formatVersion"),
        )),
    };
    if v != LEGACY_BACKUP_FORMAT_VERSION && v != CURRENT_BACKUP_FORMAT_VERSION {
        let mut message = String::from_str("unsupported backup format version: ");
        push_decimal(&mut message, v as u64);
        return Err(backup_error("BACKUP_VERSION_UNSUPPORTED", message, Some("formatVersion")));
    }
    Ok(v)
}

/// What `serde_json` reads from the text as a JSON value, then the unsigned integer under
/// `key` (`Value::get`, `Value::as_u64`): the error's text when the text is not JSON, else
/// the number if the key holds one.
pub uninterp spec fn json_u64_field(text: Seq<char>, key: Seq<char>) -> Result<Option<u64>, Seq<char>>;

/// `serde_json::from_str::<Value>`, then `get(key)` and `as_u64` on the value read.
#[verifier::external_body]
fn read_u64_field(text: &str, key: &str) -> (r: Result<Option<u64>, String>)
    ensures
        match r {
            Ok(v) => json_u64_field(text@, key@) == Ok::<Option<u64>, Seq<char>>(v),
            Err(m) => json_u64_field(text@, key@) == Err::<Option<u64>, Seq<char>>(m@),
        },
{
    serde_json::from_str::<serde_json::Value>(text)
        .map(|value| value.get(key).and_then(serde_json::Value::as_u64))
        .map_err(|error| error.to_string())
}

/// The format version a backup file declares, checked as `check_format_version` does; text
/// that is not JSON is a format error with the reader's message.
pub fn backup_format_version(input: &str) -> (r: Result<u32, DomainError>)
    ensures
        match json_u64_field(input@, "formatVersion"@) {
            Err(m) => r matches Err(e) && e.code@ == "BACKUP_FORMAT_INVALID"@ && e.message@ == m && e.field is None,
            Ok(declared) => version_outcome(declared, r),
        },
{
    match read_u64_field(input, "formatVersion") {
        Err(message) => Err(backup_error("BACKUP_FORMAT_INVALID", message, None)),
        Ok(declared) => check_format_version(declared),
    }
}

/// The SHA-256 digest of the bytes, as `Sha256::digest` computes it.
pub uninterp spec fn sha256_of(bytes: Seq<u8>) -> Seq<u8>;

/// `Sha256::digest`: the 32-byte SHA-256 digest of the bytes.
#[verifier::external_body]
fn sha256_digest(bytes: &[u8]) -> (r: Vec<u8>)
    ensures
        r@ == sha256_of(bytes@),
        r@.len() == 32,
{
    Sha256::digest(bytes).to_vec()
}

/// The lowercase hexadecimal digit for `n` in `0..16`.
pub open spec fn hex_digit(n: int) -> char {
    if n < 10 { (48 + n) as char } else { (87 + n) as char }
}

/// The bytes in lowercase hexadecimal, two digits each (`{:x}` on a digest).
pub open spec fn hex_text(bytes: Seq<u8>) -> Seq<char>
    decreases bytes.len(),
{
    if bytes.len() == 0 {
        Seq::empty()
    } else {
        let b = bytes.last() as int;
        hex_text(bytes.drop_last()) + seq![hex_digit(b / 16), hex_digit(b % 16)]
    }
}

fn hex_char(n: u8) -> (c: char)
    requires
        n < 16,
    ensures
        c == hex_digit(n as int),
{
    let digits: [char; 16] = ['0', '1', '2', '3', '4', '5', '6', '7', '8', '9', 'a', 'b', 'c', 'd', 'e', 'f'];
    let c = digits[n as usize];
    assert(c == hex_digit(n as int)) by {
        assert(digits@ =~= seq!['0', '1', '2', '3', '4', '5', '6', '7', '8', '9', 'a', 'b', 'c', 'd', 'e', 'f']);
    }
    c
}

/// The checksum recorded for a backup file: its SHA-256 digest in lowercase hexadecimal.
pub fn checksum(bytes: &[u8]) -> (r: String)
    ensures
        r@ == hex_text(sha256_of(bytes@)),
        r@.len() == 64,
{
    let digest = sha256_digest(bytes);
    let mut out = String::new();
    let mut i: usize = 0;
    while i < digest.len()
        invariant
            i <= digest@.len() == 32,
            out@ == hex_text(digest@.take(i as int)),
            out@.len() == 2 * i,
        decreases digest@.len() - i,
    {
        let b = digest[i];
        push_char(&mut out, hex_char(b / 16));
        push_char(&mut out, hex_char(b % 16));
        proof {
            assert(digest@.take(i + 1).drop_last() =~= digest@.take(i as int));
            assert(digest@.take(i + 1).last() == b);
        }
        assert(out@ =~= hex_text(digest@.take(i + 1)));
        i += 1;
    }
    assert(digest@.take(32) =~= digest@);
    out
}

/// The text `DateTime::<Utc>::format("%Y%m%dT%H%M%SZ")` gives for the instant.
pub uninterp spec fn compact_utc_text(seconds: int, nanos: int) -> Seq<char>;

/// `DateTime::<Utc>::format("%Y%m%dT%H%M%SZ")`.
#[verifier::external_body]
fn compact_utc_stamp(t: &UtcInstant) -> (r: String)
    ensures
        r@ == compact_utc_text(t.secs(), t.nano()),
{
    chrono::DateTime::<chrono::Utc>::from_timestamp(t.seconds(), t.nanos())
        .unwrap_or_default()
        .format("%Y%m%dT%H%M%SZ")
        .to_string()
}

/// The name of the snapshot written before a restore: the restore time and a unique id.
pub fn snapshot_file_name(restored_at: &UtcInstant, unique: &str) -> (r: String)
    ensures
        r@ == "pre-restore-"@ + compact_utc_text(restored_at.secs(), restored_at.nano()) + "-"@ + unique@ + ".json"@,
{
    let mut name = String::from_str("pre-restore-");
    let stamp = compact_utc_stamp(restored_at);
    push_text(&mut name, stamp.as_str());
    push_text(&mut name, "-");
    push_text(&mut name, unique);
    push_text(&mut name, ".json");
    name
}

/// The time a backup records: RFC 3339 with milliseconds and `Z`.
pub fn format_timestamp(t: &UtcInstant) -> (r: String)
    ensures
        r@ == crate::time::rfc3339_fixed_text(t.secs(), t.nano(), 3),
{
    crate::time::to_rfc3339_fixed(t, crate::time::FractionDigits::Three)
}

/// The history entry of a backup file written now in the current format.
pub fn history_entry(id: String, kind: &str, path: String, contents: &[u8], created_at: &UtcInstant)
    -> (e: BackupHistoryEntry)
    ensures
        e.id == id,
        e.kind@ == kind@,
        e.path == path,
        e.format_version == CURRENT_BACKUP_FORMAT_VERSION,
        e.checksum@ == hex_text(sha256_of(contents@)),
        e.created_at@ == crate::time::rfc3339_fixed_text(created_at.secs(), created_at.nano(), 3),
{
    BackupHistoryEntry {
        id,
        kind: String::from_str(kind),
        path,
        format_version: CURRENT_BACKUP_FORMAT_VERSION,
        checksum: checksum(contents),
        created_at: format_timestamp(created_at),
    }
}

/// A legacy backup lacks the memo collections; they are read as empty.
pub fn needs_empty_memo_collections(version: u32) -> (r: bool)
    ensures
        r == (version == LEGACY_BACKUP_FORMAT_VERSION),
{
    version == LEGACY_BACKUP_FORMAT_VERSION
}

/// What a backup file's text is checked for before its data is read: it is at most
/// `max_bytes` bytes long, and it declares a format version this build reads.
pub fn check_backup_text(input: &str, max_bytes: usize) -> (r: Result<u32, DomainError>)
    ensures
        input.len() > max_bytes ==> (r matches Err(e) && e.code@ == "BACKUP_FILE_TOO_LARGE"@
            && e.message@ == "backup file exceeds the supported size"@ && e.field is None),
        input.len() <= max_bytes ==> match json_u64_field(input@, "formatVersion"@) {
            Err(m) => r matches Err(e) && e.code@ == "BACKUP_FORMAT_INVALID"@ && e.message@ == m && e.field is None,
            Ok(declared) => version_outcome(declared, r),
        },
{
    if input.len() > max_bytes {
        return Err(backup_error("BACKUP_FILE_TOO_LARGE", String::from_str("backup file exceeds the supported size"), None));
    }
    backup_format_version(input)
}

/// A task of a backup, by what refers from it: its id and its project.
#[derive(Debug)]
pub struct BackupTaskRef {
    pub id: String,
    pub project_id: Option<String>,
}

/// A check item of a backup: the task it belongs to.
#[derive(Debug)]
pub struct BackupCheckItemRef {
    pub task_id: String,
}

/// A recurrence rule of a backup: its id and its template task.
#[derive(Debug)]
pub struct BackupRuleRef {
    pub id: String,
    pub task_template_id: String,
}

/// A task instance of a backup: its id, its rule, and the instance it was moved from.
#[derive(Debug)]
pub struct BackupInstanceRef {
    pub id: String,
    pub recurrence_rule_id: String,
    pub source_instance_id: Option<String>,
}

/// A focus session of a backup: the task, instance and project it was spent on.
#[derive(Debug)]
pub struct BackupSessionRef {
    pub task_id: Option<String>,
    pub task_instance_id: Option<String>,
    pub project_id: Option<String>,
}

/// The running focus of a backup: its task or instance.
#[derive(Debug)]
pub struct BackupActiveFocusRef {
    pub task_id: Option<String>,
    pub task_instance_id: Option<String>,
}

/// A memo's link to a tag.
#[derive(Debug)]
pub struct BackupTagLinkRef {
    pub memo_id: String,
    pub tag_id: String,
}

/// The data of a backup as its references and its sizes: the ids of what can be referred to,
/// every reference, and the number of records of each collection.
#[derive(Debug)]
pub struct BackupData {
    pub project_ids: Vec<String>,
    pub tasks: Vec<BackupTaskRef>,
    pub check_items: Vec<BackupCheckItemRef>,
    pub recurrence_rules: Vec<BackupRuleRef>,
    pub task_instances: Vec<BackupInstanceRef>,
    pub focus_sessions: Vec<BackupSessionRef>,
    pub active_focus: Option<BackupActiveFocusRef>,
    pub notes: usize,
    pub weekly_goals: usize,
    pub preferences: usize,
    pub memo_ids: Vec<String>,
    pub memo_tag_ids: Vec<String>,
    pub memo_tag_links: Vec<BackupTagLinkRef>,
    /// The memo of each memo reminder.
    pub memo_reminder_memo_ids: Vec<String>,
}

/// The number of records of each collection of a backup, and of all of them.
#[derive(Debug, Clone, Copy, PartialEq, Eq, Structural)]
pub struct BackupCounts {
    pub projects: usize,
    pub tasks: usize,
    pub check_items: usize,
    pub recurrence_rules: usize,
    pub task_instances: usize,
    pub focus_sessions: usize,
    pub active_focus: usize,
    pub notes: usize,
    pub weekly_goals: usize,
    pub preferences: usize,
    pub memos: usize,
    pub memo_tags: usize,
    pub memo_tag_links: usize,
    pub memo_reminders: usize,
    pub total: usize,
}

/// What a backup that passed its checks holds.
#[derive(Debug, Clone, Copy, PartialEq, Eq, Structural)]
pub struct BackupImportSummary {
    pub counts: BackupCounts,
}

/// The characters of each id.
pub open spec fn id_texts(ids: Seq<String>) -> Seq<Seq<char>> {
    ids.map_values(|s: String| s@)
}

/// A reference that is absent, or names one of the ids.
pub open spec fn resolves(ids: Seq<String>, r: Option<String>) -> bool {
    match r {
        None => true,
        Some(v) => id_texts(ids).contains(v@),
    }
}

/// The ids of the tasks, rules and instances of the data.
pub open spec fn task_ids(d: BackupData) -> Seq<String> {
    d.tasks@.map_values(|t: BackupTaskRef| t.id)
}

pub open spec fn rule_ids(d: BackupData) -> Seq<String> {
    d.recurrence_rules@.map_values(|t: BackupRuleRef| t.id)
}

pub open spec fn instance_ids(d: BackupData) -> Seq<String> {
    d.task_instances@.map_values(|t: BackupInstanceRef| t.id)
}

/// Every task's project, when it has one, is a project of the data.
pub open spec fn task_projects_resolve(d: BackupData) -> bool {
    forall|i: int| 0 <= i < d.tasks@.len() ==> resolves(d.project_ids@, (#[trigger] d.tasks@[i]).project_id)
}

/// Every check item's task is a task of the data.
pub open spec fn check_item_tasks_resolve(d: BackupData) -> bool {
    forall|i: int| 0 <= i < d.check_items@.len() ==> resolves(task_ids(d), Some((#[trigger] d.check_items@[i]).task_id))
}

/// Every rule's template is a task of the data.
pub open spec fn rule_templates_resolve(d: BackupData) -> bool {
    forall|i: int| 0 <= i < d.recurrence_rules@.len()
        ==> resolves(task_ids(d), Some((#[trigger] d.recurrence_rules@[i]).task_template_id))
}

/// Every instance's rule is a rule of the data.
pub open spec fn instance_rules_resolve(d: BackupData) -> bool {
    forall|i: int| 0 <= i < d.task_instances@.len()
        ==> resolves(rule_ids(d), Some((#[trigger] d.task_instances@[i]).recurrence_rule_id))
}

/// Every instance's source instance, when it has one, is an instance of the data.
pub open spec fn instance_sources_resolve(d: BackupData) -> bool {
    forall|i: int| 0 <= i < d.task_instances@.len()
        ==> resolves(instance_ids(d), (#[trigger] d.task_instances@[i]).source_instance_id)
}

/// Every session's task, when it has one, is a task of the data.
pub open spec fn session_tasks_resolve(d: BackupData) -> bool {
    forall|i: int| 0 <= i < d.focus_sessions@.len() ==> resolves(task_ids(d), (#[trigger] d.focus_sessions@[i]).task_id)
}

/// Every session's instance, when it has one, is an instance of the data.
pub open spec fn session_instances_resolve(d: BackupData) -> bool {
    forall|i: int| 0 <= i < d.focus_sessions@.len()
        ==> resolves(instance_ids(d), (#[trigger] d.focus_sessions@[i]).task_instance_id)
}

/// Every session's project, when it has one, is a project of the data.
pub open spec fn session_projects_resolve(d: BackupData) -> bool {
    forall|i: int| 0 <= i < d.focus_sessions@.len() ==> resolves(d.project_ids@, (#[trigger] d.focus_sessions@[i]).project_id)
}

/// Every link's memo is a memo of the data.
pub open spec fn link_memos_resolve(d: BackupData) -> bool {
    forall|i: int| 0 <= i < d.memo_tag_links@.len() ==> resolves(d.memo_ids@, Some((#[trigger] d.memo_tag_links@[i]).memo_id))
}

/// Every link's tag is a tag of the data.
pub open spec fn link_tags_resolve(d: BackupData) -> bool {
    forall|i: int| 0 <= i < d.memo_tag_links@.len() ==> resolves(d.memo_tag_ids@, Some((#[trigger] d.memo_tag_links@[i]).tag_id))
}

/// Every reminder's memo is a memo of the data.
pub open spec fn reminder_memos_resolve(d: BackupData) -> bool {
    forall|i: int| 0 <= i < d.memo_reminder_memo_ids@.len() ==> resolves(d.memo_ids@, Some(#[trigger] d.memo_reminder_memo_ids@[i]))
}

/// The first reference that some record of the data breaks, named as the backup document
/// names it, in the order: tasks, check items, rules, instances, focus sessions, the running
/// focus, tag links, reminders.
pub open spec fn broken_reference(d: BackupData) -> Option<Seq<char>> {
    if !task_projects_resolve(d) { Some("tasks.projectId"@) }
    else if !check_item_tasks_resolve(d) { Some("checkItems.taskId"@) }
    else if !rule_templates_resolve(d) { Some("recurrenceRules.taskTemplateId"@) }
    else if !instance_rules_resolve(d) { Some("taskInstances.recurrenceRuleId"@) }
    else if !instance_sources_resolve(d) { Some("taskInstances.sourceInstanceId"@) }
    else if !session_tasks_resolve(d) { Some("focusSessions.taskId"@) }
    else if !session_instances_resolve(d) { Some("focusSessions.taskInstanceId"@) }
    else if !session_projects_resolve(d) { Some("focusSessions.projectId"@) }
    else if d.active_focus matches Some(a) && !resolves(task_ids(d), a.task_id) { Some("activeFocus.taskId"@) }
    else if d.active_focus matches Some(a) && !resolves(instance_ids(d), a.task_instance_id) { Some("activeFocus.taskInstanceId"@) }
    else if !link_memos_resolve(d) { Some("memoTagLinks.memoId"@) }
    else if !link_tags_resolve(d) { Some("memoTagLinks.tagId"@) }
    else if !reminder_memos_resolve(d) { Some("memoReminders.memoId"@) }
    else { None }
}

/// The size of each collection of the data, and the sum of them.
pub open spec fn counts_of(d: BackupData) -> BackupCounts {
    let active: usize = if d.active_focus is Some { 1 } else { 0 };
    let total = d.project_ids@.len() + d.tasks@.len() + d.check_items@.len() + d.recurrence_rules@.len()
        + d.task_instances@.len() + d.focus_sessions@.len() + active + d.notes + d.weekly_goals
        + d.preferences + d.memo_ids@.len() + d.memo_tag_ids@.len() + d.memo_tag_links@.len()
        + d.memo_reminder_memo_ids@.len();
    BackupCounts {
        projects: d.project_ids@.len() as usize,
        tasks: d.tasks@.len() as usize,
        check_items: d.check_items@.len() as usize,
        recurrence_rules: d.recurrence_rules@.len() as usize,
        task_instances: d.task_instances@.len() as usize,
        focus_sessions: d.focus_sessions@.len() as usize,
        active_focus: active,
        notes: d.notes,
        weekly_goals: d.weekly_goals,
        preferences: d.preferences,
        memos: d.memo_ids@.len() as usize,
        memo_tags: d.memo_tag_ids@.len() as usize,
        memo_tag_links: d.memo_tag_links@.len() as usize,
        memo_reminders: d.memo_reminder_memo_ids@.len() as usize,
        total: total as usize,
    }
}

/// The number of records of the data in all, as an unbounded integer.
pub open spec fn record_total(d: BackupData) -> int {
    d.project_ids@.len() + d.tasks@.len() + d.check_items@.len() + d.recurrence_rules@.len()
        + d.task_instances@.len() + d.focus_sessions@.len() + (if d.active_focus is Some { 1int } else { 0int })
        + d.notes + d.weekly_goals + d.preferences + d.memo_ids@.len() + d.memo_tag_ids@.len()
        + d.memo_tag_links@.len() + d.memo_reminder_memo_ids@.len()
}

/// Whether `v` is one of the ids.
fn has_id(ids: &Vec<String>, v: &String) -> (r: bool)
    ensures
        r == id_texts(ids@).contains(v@),
{
    let mut i: usize = 0;
    while i < ids.len()
        invariant
            i <= ids@.len(),
            forall|k: int| 0 <= k < i ==> (#[trigger] ids@[k])@ != v@,
        decreases ids@.len() - i,
    {
        if same_text(ids[i].as_str(), v.as_str()) {
            assert(id_texts(ids@)[i as int] == v@);
            return true;
        }
        i += 1;
    }
    assert(!id_texts(ids@).contains(v@)) by {
        if id_texts(ids@).contains(v@) {
            let k = choose|k: int| 0 <= k < id_texts(ids@).len() && id_texts(ids@)[k] == v@;
            assert(ids@[k]@ == v@);
        }
    }
    false
}

/// Whether the reference is absent or names one of the ids.
fn resolves_in(ids: &Vec<String>, r: &Option<String>) -> (b: bool)
    ensures
        b == resolves(ids@, *r),
{
    match r {
        None => true,
        Some(v) => has_id(ids, v),
    }
}

/// Two id lists with the same texts resolve the same references.
proof fn lemma_same_texts_resolve(a: Seq<String>, b: Seq<String>, r: Option<String>)
    requires
        id_texts(a) == id_texts(b),
    ensures
        resolves(a, r) == resolves(b, r),
{
}

/// The ids of the tasks.
fn task_id_list(d: &BackupData) -> (r: Vec<String>)
    ensures
        id_texts(r@) == id_texts(task_ids(*d)),
{
    let mut out: Vec<String> = Vec::new();
    let mut i: usize = 0;
    while i < d.tasks.len()
        invariant
            i <= d.tasks@.len(),
            out@.len() == i,
            forall|k: int| 0 <= k < i ==> (#[trigger] out@[k])@ == d.tasks@[k].id@,
        decreases d.tasks@.len() - i,
    {
        out.push(d.tasks[i].id.clone());
        i += 1;
    }
    assert(id_texts(out@) =~= id_texts(task_ids(*d)));
    out
}

/// The ids of the rules.
fn rule_id_list(d: &BackupData) -> (r: Vec<String>)
    ensures
        id_texts(r@) == id_texts(rule_ids(*d)),
{
    let mut out: Vec<String> = Vec::new();
    let mut i: usize = 0;
    while i < d.recurrence_rules.len()
        invariant
            i <= d.recurrence_rules@.len(),
            out@.len() == i,
            forall|k: int| 0 <= k < i ==> (#[trigger] out@[k])@ == d.recurrence_rules@[k].id@,
        decreases d.recurrence_rules@.len() - i,
    {
        out.push(d.recurrence_rules[i].id.clone());
        i += 1;
    }
    assert(id_texts(out@) =~= id_texts(rule_ids(*d)));
    out
}

/// The ids of the instances.
fn instance_id_list(d: &BackupData) -> (r: Vec<String>)
    ensures
        id_texts(r@) == id_texts(instance_ids(*d)),
{
    let mut out: Vec<String> = Vec::new();
    let mut i: usize = 0;
    while i < d.task_instances.len()
        invariant
            i <= d.task_instances@.len(),
            out@.len() == i,
            forall|k: int| 0 <= k < i ==> (#[trigger] out@[k])@ == d.task_instances@[k].id@,
        decreases d.task_instances@.len() - i,
    {
        out.push(d.task_instances[i].id.clone());
        i += 1;
    }
    assert(id_texts(out@) =~= id_texts(instance_ids(*d)));
    out
}

/// Whether every task's project resolves.
fn check_task_projects(d: &BackupData) -> (r: bool)
    ensures
        r == task_projects_resolve(*d),
{
    let mut i: usize = 0;
    while i < d.tasks.len()
        invariant
            i <= d.tasks@.len(),
            forall|k: int| 0 <= k < i ==> resolves(d.project_ids@, (#[trigger] d.tasks@[k]).project_id),
        decreases d.tasks@.len() - i,
    {
        if !resolves_in(&d.project_ids, &d.tasks[i].project_id) {
            return false;
        }
        i += 1;
    }
    true
}

/// Whether every check item's task resolves.
fn check_item_tasks(d: &BackupData, tasks: &Vec<String>) -> (r: bool)
    requires
        id_texts(tasks@) == id_texts(task_ids(*d)),
    ensures
        r == check_item_tasks_resolve(*d),
{
    let mut i: usize = 0;
    while i < d.check_items.len()
        invariant
            i <= d.check_items@.len(),
            id_texts(tasks@) == id_texts(task_ids(*d)),
            forall|k: int| 0 <= k < i ==> resolves(task_ids(*d), Some((#[trigger] d.check_items@[k]).task_id)),
        decreases d.check_items@.len() - i,
    {
        proof {
            lemma_same_texts_resolve(tasks@, task_ids(*d), Some(d.check_items@[i as int].task_id));
        }
        if !has_id(tasks, &d.check_items[i].task_id) {
            return false;
        }
        i += 1;
    }
    true
}

/// Whether every rule's template task resolves.
fn check_rule_templates(d: &BackupData, tasks: &Vec<String>) -> (r: bool)
    requires
        id_texts(tasks@) == id_texts(task_ids(*d)),
    ensures
        r == rule_templates_resolve(*d),
{
    let mut i: usize = 0;
    while i < d.recurrence_rules.len()
        invariant
            i <= d.recurrence_rules@.len(),
            id_texts(tasks@) == id_texts(task_ids(*d)),
            forall|k: int| 0 <= k < i ==> resolves(task_ids(*d), Some((#[trigger] d.recurrence_rules@[k]).task_template_id)),
        decreases d.recurrence_rules@.len() - i,
    {
        proof {
            lemma_same_texts_resolve(tasks@, task_ids(*d), Some(d.recurrence_rules@[i as int].task_template_id));
        }
        if !has_id(tasks, &d.recurrence_rules[i].task_template_id) {
            return false;
        }
        i += 1;
    }
    true
}

/// Whether every instance's rule resolves.
fn check_instance_rules(d: &BackupData, rules: &Vec<String>) -> (r: bool)
    requires
        id_texts(rules@) == id_texts(rule_ids(*d)),
    ensures
        r == instance_rules_resolve(*d),
{
    let mut i: usize = 0;
    while i < d.task_instances.len()
        invariant
            i <= d.task_instances@.len(),
            id_texts(rules@) == id_texts(rule_ids(*d)),
            forall|k: int| 0 <= k < i ==> resolves(rule_ids(*d), Some((#[trigger] d.task_instances@[k]).recurrence_rule_id)),
        decreases d.task_instances@.len() - i,
    {
        proof {
            lemma_same_texts_resolve(rules@, rule_ids(*d), Some(d.task_instances@[i as int].recurrence_rule_id));
        }
        if !has_id(rules, &d.task_instances[i].recurrence_rule_id) {
            return false;
        }
        i += 1;
    }
    true
}

/// Whether every instance's source instance resolves.
fn check_instance_sources(d: &BackupData, instances: &Vec<String>) -> (r: bool)
    requires
        id_texts(instances@) == id_texts(instance_ids(*d)),
    ensures
        r == instance_sources_resolve(*d),
{
    let mut i: usize = 0;
    while i < d.task_instances.len()
        invariant
            i <= d.task_instances@.len(),
            id_texts(instances@) == id_texts(instance_ids(*d)),
            forall|k: int| 0 <= k < i ==> resolves(instance_ids(*d), (#[trigger] d.task_instances@[k]).source_instance_id),
        decreases d.task_instances@.len() - i,
    {
        proof {
            lemma_same_texts_resolve(instances@, instance_ids(*d), d.task_instances@[i as int].source_instance_id);
        }
        if !resolves_in(instances, &d.task_instances[i].source_instance_id) {
            return false;
        }
        i += 1;
    }
    true
}

/// Whether every focus session's task resolves.
fn check_session_tasks(d: &BackupData, tasks: &Vec<String>) -> (r: bool)
    requires
        id_texts(tasks@) == id_texts(task_ids(*d)),
    ensures
        r == session_tasks_resolve(*d),
{
    let mut i: usize = 0;
    while i < d.focus_sessions.len()
        invariant
            i <= d.focus_sessions@.len(),
            id_texts(tasks@) == id_texts(task_ids(*d)),
            forall|k: int| 0 <= k < i ==> resolves(task_ids(*d), (#[trigger] d.focus_sessions@[k]).task_id),
        decreases d.focus_sessions@.len() - i,
    {
        proof {
            lemma_same_texts_resolve(tasks@, task_ids(*d), d.focus_sessions@[i as int].task_id);
        }
        if !resolves_in(tasks, &d.focus_sessions[i].task_id) {
            return false;
        }
        i += 1;
    }
    true
}

/// Whether every focus session's instance resolves.
fn check_session_instances(d: &BackupData, instances: &Vec<String>) -> (r: bool)
    requires
        id_texts(instances@) == id_texts(instance_ids(*d)),
    ensures
        r == session_instances_resolve(*d),
{
    let mut i: usize = 0;
    while i < d.focus_sessions.len()
        invariant
            i <= d.focus_sessions@.len(),
            id_texts(instances@) == id_texts(instance_ids(*d)),
            forall|k: int| 0 <= k < i ==> resolves(instance_ids(*d), (#[trigger] d.focus_sessions@[k]).task_instance_id),
        decreases d.focus_sessions@.len() - i,
    {
        proof {
            lemma_same_texts_resolve(instances@, instance_ids(*d), d.focus_sessions@[i as int].task_instance_id);
        }
        if !resolves_in(instances, &d.focus_sessions[i].task_instance_id) {
            return false;
        }
        i += 1;
    }
    true
}

/// Whether every focus session's project resolves.
fn check_session_projects(d: &BackupData) -> (r: bool)
    ensures
        r == session_projects_resolve(*d),
{
    let mut i: usize = 0;
    while i < d.focus_sessions.len()
        invariant
            i <= d.focus_sessions@.len(),
            forall|k: int| 0 <= k < i ==> resolves(d.project_ids@, (#[trigger] d.focus_sessions@[k]).project_id),
        decreases d.focus_sessions@.len() - i,
    {
        if !resolves_in(&d.project_ids, &d.focus_sessions[i].project_id) {
            return false;
        }
        i += 1;
    }
    true
}

/// Whether every tag link's memo resolves.
fn check_link_memos(d: &BackupData) -> (r: bool)
    ensures
        r == link_memos_resolve(*d),
{
    let mut i: usize = 0;
    while i < d.memo_tag_links.len()
        invariant
            i <= d.memo_tag_links@.len(),
            forall|k: int| 0 <= k < i ==> resolves(d.memo_ids@, Some((#[trigger] d.memo_tag_links@[k]).memo_id)),
        decreases d.memo_tag_links@.len() - i,
    {
        if !has_id(&d.memo_ids, &d.memo_tag_links[i].memo_id) {
            return false;
        }
        i += 1;
    }
    true
}

/// Whether every tag link's tag resolves.
fn check_link_tags(d: &BackupData) -> (r: bool)
    ensures
        r == link_tags_resolve(*d),
{
    let mut i: usize = 0;
    while i < d.memo_tag_links.len()
        invariant
            i <= d.memo_tag_links@.len(),
            forall|k: int| 0 <= k < i ==> resolves(d.memo_tag_ids@, Some((#[trigger] d.memo_tag_links@[k]).tag_id)),
        decreases d.memo_tag_links@.len() - i,
    {
        if !has_id(&d.memo_tag_ids, &d.memo_tag_links[i].tag_id) {
            return false;
        }
        i += 1;
    }
    true
}

/// Whether every reminder's memo resolves.
fn check_reminder_memos(d: &BackupData) -> (r: bool)
    ensures
        r == reminder_memos_resolve(*d),
{
    let mut i: usize = 0;
    while i < d.memo_reminder_memo_ids.len()
        invariant
            i <= d.memo_reminder_memo_ids@.len(),
            forall|k: int| 0 <= k < i ==> resolves(d.memo_ids@, Some(#[trigger] d.memo_reminder_memo_ids@[k])),
        decreases d.memo_reminder_memo_ids@.len() - i,
    {
        if !has_id(&d.memo_ids, &d.memo_reminder_memo_ids[i]) {
            return false;
        }
        i += 1;
    }
    true
}

fn reference_error(field: &str) -> (e: DomainError)
    ensures
        e.code@ == "BACKUP_REFERENCE_INVALID"@,
        e.field matches Some(f) && f@ == field@,
{
    let mut message = String::from_str(field);
    push_text(&mut message, " refers to a record the backup does not hold");
    backup_error("BACKUP_REFERENCE_INVALID", message, Some(field))
}

/// Checks that every reference of a backup's data names a record the data holds, and counts
/// its records. The first broken reference is reported, by its name in the document.
pub fn validate_backup(d: &BackupData) -> (r: Result<BackupImportSummary, DomainError>)
    requires
        record_total(*d) <= usize::MAX,
    ensures
        broken_reference(*d) matches Some(f) ==> fails_on(r, "BACKUP_REFERENCE_INVALID"@, f),
        broken_reference(*d) is None ==> r == Ok::<BackupImportSummary, DomainError>(BackupImportSummary { counts: counts_of(*d) }),
{
    let tasks = task_id_list(d);
    let rules = rule_id_list(d);
    let instances = instance_id_list(d);
    if !check_task_projects(d) {
        return Err(reference_error("tasks.projectId"));
    }
    if !check_item_tasks(d, &tasks) {
        return Err(reference_error("checkItems.taskId"));
    }
    if !check_rule_templates(d, &tasks) {
        return Err(reference_error("recurrenceRules.taskTemplateId"));
    }
    if !check_instance_rules(d, &rules) {
        return Err(reference_error("taskInstances.recurrenceRuleId"));
    }
    if !check_instance_sources(d, &instances) {
        return Err(reference_error("taskInstances.sourceInstanceId"));
    }
    if !check_session_tasks(d, &tasks) {
        return Err(reference_error("focusSessions.taskId"));
    }
    if !check_session_instances(d, &instances) {
        return Err(reference_error("focusSessions.taskInstanceId"));
    }
    if !check_session_projects(d) {
        return Err(reference_error("focusSessions.projectId"));
    }
    let mut active: usize = 0;
    if let Some(a) = &d.active_focus {
        proof {
            lemma_same_texts_resolve(tasks@, task_ids(*d), a.task_id);
            lemma_same_texts_resolve(instances@, instance_ids(*d), a.task_instance_id);
        }
        if !resolves_in(&tasks, &a.task_id) {
            return Err(reference_error("activeFocus.taskId"));
        }
        if !resolves_in(&instances, &a.task_instance_id) {
            return Err(reference_error("activeFocus.taskInstanceId"));
        }
        active = 1;
    }
    if !check_link_memos(d) {
        return Err(reference_error("memoTagLinks.memoId"));
    }
    if !check_link_tags(d) {
        return Err(reference_error("memoTagLinks.tagId"));
    }
    if !check_reminder_memos(d) {
        return Err(reference_error("memoReminders.memoId"));
    }
    let total = d.project_ids.len() + d.tasks.len() + d.check_items.len() + d.recurrence_rules.len()
        + d.task_instances.len() + d.focus_sessions.len() + active + d.notes + d.weekly_goals
        + d.preferences + d.memo_ids.len() + d.memo_tag_ids.len() + d.memo_tag_links.len()
        + d.memo_reminder_memo_ids.len();
    Ok(BackupImportSummary {
        counts: BackupCounts {
            projects: d.project_ids.len(),
            tasks: d.tasks.len(),
            check_items: d.check_items.len(),
            recurrence_rules: d.recurrence_rules.len(),
            task_instances: d.task_instances.len(),
            focus_sessions: d.focus_sessions.len(),
            active_focus: active,
            notes: d.notes,
            weekly_goals: d.weekly_goals,
            preferences: d.preferences,
            memos: d.memo_ids.len(),
            memo_tags: d.memo_tag_ids.len(),
            memo_tag_links: d.memo_tag_links.len(),
            memo_reminders: d.memo_reminder_memo_ids.len(),
            total,
        },
    })
}

/// The value of a lowercase hexadecimal digit.
pub open spec fn hex_value(c: char) -> int {
    if '0' <= c && c <= '9' { (c as int) - ('0' as int) } else { (c as int) - ('a' as int) + 10 }
}

/// The hexadecimal text of bytes (as `checksum` writes a digest) has two characters per
/// byte, each a digit `0`-`9` or a lowercase letter `a`-`f`, and the pair at byte `k` reads
/// back, high digit first, as that byte.
pub proof fn law_hex_text_encodes_bytes(bytes: Seq<u8>)
    ensures
        hex_text(bytes).len() == 2 * bytes.len(),
        forall|i: int| 0 <= i < hex_text(bytes).len() ==> {
            let c = #[trigger] hex_text(bytes)[i];
            ('0' <= c && c <= '9') || ('a' <= c && c <= 'f')
        },
        forall|k: int| 0 <= k < bytes.len()
            ==> hex_value(hex_text(bytes)[2 * k]) * 16 + hex_value(hex_text(bytes)[2 * k + 1]) == #[trigger] bytes[k],
    decreases bytes.len(),
{
    if bytes.len() > 0 {
        let rest = bytes.drop_last();
        law_hex_text_encodes_bytes(rest);
        let b = bytes.last() as int;
        let h = hex_text(bytes);
        assert(h == hex_text(rest) + seq![hex_digit(b / 16), hex_digit(b % 16)]);
        assert(0 <= b / 16 < 16 && 0 <= b % 16 < 16 && (b / 16) * 16 + b % 16 == b);
        assert forall|k: int| 0 <= k < bytes.len()
            implies hex_value(h[2 * k]) * 16 + hex_value(h[2 * k + 1]) == #[trigger] bytes[k] by {
            if k < rest.len() {
                assert(rest[k] == bytes[k]);
                assert(h[2 * k] == hex_text(rest)[2 * k]);
                assert(h[2 * k + 1] == hex_text(rest)[2 * k + 1]);
            } else {
                assert(k == rest.len());
                assert(h[2 * k] == hex_digit(b / 16));
                assert(h[2 * k + 1] == hex_digit(b % 16));
            }
        }
        assert forall|i: int| 0 <= i < h.len() implies {
            let c = #[trigger] h[i];
            ('0' <= c && c <= '9') || ('a' <= c && c <= 'f')
        } by {
            if i < hex_text(rest).len() {
                assert(h[i] == hex_text(rest)[i]);
            }
        }
    }
}

} // verus!
