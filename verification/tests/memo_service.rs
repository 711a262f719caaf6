use chrono::{TimeZone, Utc};
use daoda_focus::memo::{MemoCoreRecord, MemoInput, MemoService, NormalizedMemoTag};
use daoda_focus::time::UtcInstant;

fn at(y: i32, mo: u32, d: u32, h: u32, mi: u32, s: u32) -> UtcInstant {
    let t = Utc.with_ymd_and_hms(y, mo, d, h, mi, s).unwrap();
    UtcInstant::from_parts(t.timestamp(), 0).unwrap()
}

fn input(title: &str, body: &str, pinned: bool) -> MemoInput {
    MemoInput {
        title: title.into(),
        body: body.into(),
        tags: Vec::new(),
        pinned,
    }
}

#[test]
fn create_normalizes_title_and_initializes_a_single_timestamp() {
    let now = at(2026, 7, 23, 10, 30, 0);
    let memo = MemoService::create(
        "memo-1".into(),
        &input("  Launch notes  ", " Keep body spacing ", true),
        now,
    )
    .unwrap();

    assert_eq!(memo.id, "memo-1");
    assert_eq!(memo.title, "Launch notes");
    assert_eq!(memo.body, " Keep body spacing ");
    assert_eq!(memo.pinned_at.as_deref(), Some(memo.created_at.as_str()));
    assert_eq!(memo.created_at, memo.updated_at);
}

#[test]
fn update_preserves_identity_creation_and_original_pin_time() {
    let created = at(2026, 7, 23, 10, 0, 0);
    let current =
        MemoService::create("memo-1".into(), &input("First", "Body", true), created).unwrap();
    let updated = MemoService::update(
        &current,
        &input("Second", "Changed", true),
        at(2026, 7, 23, 11, 0, 0),
    )
    .unwrap();

    assert_eq!(updated.id, current.id);
    assert_eq!(updated.created_at, current.created_at);
    assert_eq!(updated.pinned_at, current.pinned_at);
    assert_ne!(updated.updated_at, current.updated_at);

    let unpinned = MemoService::update(
        &updated,
        &input("Second", "Changed", false),
        at(2026, 7, 23, 12, 0, 0),
    )
    .unwrap();
    assert_eq!(unpinned.pinned_at, None);
}

#[test]
fn get_returns_a_stable_not_found_error() {
    let error = MemoService::get(None).unwrap_err();
    assert_eq!(error.code, "MEMO_NOT_FOUND");
    assert_eq!(error.field, None);
}

#[test]
fn get_returns_the_memo_that_was_read() {
    let record = MemoCoreRecord {
        id: "memo-1".into(),
        title: "Title".into(),
        body: "Body".into(),
        pinned_at: None,
        created_at: "2026-07-23T10:00:00.000Z".into(),
        updated_at: "2026-07-23T10:00:00.000Z".into(),
    };
    let found = MemoService::get(Some(record)).unwrap();
    assert_eq!(found.id, "memo-1");
    assert_eq!(found.title, "Title");
}

#[test]
fn display_title_uses_title_body_line_and_localized_fallback_in_order() {
    assert_eq!(
        MemoService::display_title("  Explicit title  ", "Body", "Untitled"),
        "Explicit title"
    );
    let derived = MemoService::display_title(
        "",
        "\n   \n  第一行内容超过四十个字符以验证使用Unicode字符安全截断并忽略后续内容ABCDEFGHIJ\nSecond",
        "Untitled",
    );
    assert_eq!(
        derived,
        "第一行内容超过四十个字符以验证使用Unicode字符安全截断并忽略后续内容ABC"
    );
    assert_eq!(derived.chars().count(), 40);
    assert_eq!(
        MemoService::display_title(" ", "\n ", "无标题备忘录"),
        "无标题备忘录"
    );
}

#[test]
fn tag_normalization_trims_deduplicates_and_preserves_first_spelling() {
    let tags =
        MemoService::normalize_tags(&[" Work ".into(), "work".into(), "PERSONAL".into()]).unwrap();

    assert_eq!(
        tags,
        vec![
            NormalizedMemoTag {
                name: "Work".into(),
                normalized_name: "work".into(),
            },
            NormalizedMemoTag {
                name: "PERSONAL".into(),
                normalized_name: "personal".into(),
            },
        ]
    );
}

#[test]
fn tag_normalization_rejects_more_than_ten_distinct_tags() {
    let tags: Vec<String> = (0..11).map(|i| format!("tag-{i}")).collect();
    let error = MemoService::normalize_tags(&tags).unwrap_err();
    assert_eq!(error.code, "MEMO_TAG_LIMIT_EXCEEDED");
}
