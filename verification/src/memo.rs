//! Memo core records: tag normalization, display titles, and the record that a
//! create or an update produces.
use vstd::prelude::*;
use crate::error::DomainError;
use crate::text::{opt_text, chars_of, find_content_line, first_content_line, prefix, string_of, trim, trimmed};
use crate::time::{rfc3339_text, to_rfc3339, UtcInstant};

verus! {

/// The text `str::to_lowercase` gives for `s` (Unicode lowercase mapping).
pub uninterp spec fn lowercase_text(s: Seq<char>) -> Seq<char>;

/// `str::to_lowercase`.
#[verifier::external_body]
fn to_lowercase(s: &str) -> (r: String)
    ensures
        r@ == lowercase_text(s@),
{
    s.to_lowercase()
}

/// The stored core of a memo (without tags and reminder).
#[derive(Debug, PartialEq, Eq)]
pub struct MemoCoreRecord {
    pub id: String,
    pub title: String,
    pub body: String,
    pub pinned_at: Option<String>,
    pub created_at: String,
    pub updated_at: String,
}

/// A tag as the user spelled it, and the key by which tags are told apart.
#[derive(Debug, PartialEq, Eq)]
pub struct NormalizedMemoTag {
    pub name: String,
    pub normalized_name: String,
}

impl View for NormalizedMemoTag {
    type V = (Seq<char>, Seq<char>);

    open spec fn view(&self) -> (Seq<char>, Seq<char>) {
        (self.name@, self.normalized_name@)
    }
}

/// What a user submits when creating or updating a memo.
#[derive(Debug)]
pub struct MemoInput {
    pub title: String,
    pub body: String,
    pub tags: Vec<String>,
    pub pinned: bool,
}

pub open spec fn string_views(v: Seq<String>) -> Seq<Seq<char>> {
    v.map_values(|s: String| s@)
}

pub open spec fn tag_views(v: Seq<NormalizedMemoTag>) -> Seq<(Seq<char>, Seq<char>)> {
    v.map_values(|t: NormalizedMemoTag| t@)
}

/// A tag is accepted when, trimmed, it holds 1 to 30 characters.
pub open spec fn tag_acceptable(tag: Seq<char>) -> bool {
    0 < trim(tag).len() <= 30
}

pub open spec fn has_key(tags: Seq<(Seq<char>, Seq<char>)>, key: Seq<char>) -> bool {
    exists|j: int| 0 <= j < tags.len() && #[trigger] tags[j].1 == key
}

/// The trimmed tags in order, each kept only at the first spelling of its lowercase key.
pub open spec fn unique_tags(tags: Seq<Seq<char>>) -> Seq<(Seq<char>, Seq<char>)>
    decreases tags.len(),
{
    if tags.len() == 0 {
        Seq::empty()
    } else {
        let prev = unique_tags(tags.drop_last());
        let name = trim(tags.last());
        let key = lowercase_text(name);
        if has_key(prev, key) {
            prev
        } else {
            prev.push((name, key))
        }
    }
}

/// The normalized tags have pairwise distinct keys: one tag per lowercase key, whatever
/// spellings were given.
pub proof fn lemma_unique_tag_keys(tags: Seq<Seq<char>>)
    ensures
        forall|i: int, j: int| 0 <= i < j < unique_tags(tags).len()
            ==> (#[trigger] unique_tags(tags)[i]).1 != (#[trigger] unique_tags(tags)[j]).1,
    decreases tags.len(),
{
    if tags.len() > 0 {
        lemma_unique_tag_keys(tags.drop_last());
        let prev = unique_tags(tags.drop_last());
        let key = lowercase_text(trim(tags.last()));
        if !has_key(prev, key) {
            assert forall|i: int, j: int| 0 <= i < j < unique_tags(tags).len()
                implies (#[trigger] unique_tags(tags)[i]).1 != (#[trigger] unique_tags(tags)[j]).1 by {
                if j == prev.len() {
                    assert(unique_tags(tags)[i] == prev[i]);
                    if prev[i].1 == key {
                        assert(has_key(prev, key));
                    }
                } else {
                    assert(unique_tags(tags)[i] == prev[i]);
                    assert(unique_tags(tags)[j] == prev[j]);
                }
            }
        }
    }
}

/// The lowercase key of each trimmed tag, in order.
pub open spec fn tag_keys(tags: Seq<Seq<char>>) -> Seq<Seq<char>> {
    tags.map_values(|t: Seq<char>| lowercase_text(trim(t)))
}

pub open spec fn kept_keys(u: Seq<(Seq<char>, Seq<char>)>) -> Seq<Seq<char>> {
    u.map_values(|p: (Seq<char>, Seq<char>)| p.1)
}

proof fn lemma_kept_key_set(tags: Seq<Seq<char>>)
    ensures
        kept_keys(unique_tags(tags)).to_set() == tag_keys(tags).to_set(),
    decreases tags.len(),
{
    if tags.len() == 0 {
        assert(kept_keys(unique_tags(tags)).to_set() =~= tag_keys(tags).to_set());
    } else {
        let rest = tags.drop_last();
        lemma_kept_key_set(rest);
        let prev = unique_tags(rest);
        let key = lowercase_text(trim(tags.last()));
        assert(tag_keys(tags) =~= tag_keys(rest).push(key));
        tag_keys(rest).lemma_push_to_set_commute(key);
        if has_key(prev, key) {
            let j = choose|j: int| 0 <= j < prev.len() && #[trigger] prev[j].1 == key;
            assert(kept_keys(prev)[j] == key);
            assert(kept_keys(prev).to_set().contains(key));
            assert(kept_keys(prev).to_set().insert(key) =~= kept_keys(prev).to_set());
        } else {
            assert(kept_keys(unique_tags(tags)) =~= kept_keys(prev).push(key));
            kept_keys(prev).lemma_push_to_set_commute(key);
        }
    }
}

/// Normalizing keeps one tag per distinct lowercase key of the trimmed input: as many tags
/// as the input has distinct keys (the number the limit of ten is held against).
pub proof fn lemma_unique_tag_count(tags: Seq<Seq<char>>)
    ensures
        unique_tags(tags).len() == tag_keys(tags).to_set().len(),
{
    lemma_kept_key_set(tags);
    lemma_unique_tag_keys(tags);
    let k = kept_keys(unique_tags(tags));
    assert(k.no_duplicates()) by {
        assert forall|i: int, j: int| 0 <= i < k.len() && 0 <= j < k.len() && i != j implies k[i] != k[j] by {
            if i < j {
                assert(unique_tags(tags)[i].1 != unique_tags(tags)[j].1);
            } else {
                assert(unique_tags(tags)[j].1 != unique_tags(tags)[i].1);
            }
        }
    }
    k.unique_seq_to_set();
}

impl MemoService {
    /// Trims the tags, drops later spellings of a tag already seen (compared in lowercase),
    /// and checks the limits: every tag 1 to 30 characters, at most 10 distinct tags.
    pub fn normalize_tags(tags: &[String]) -> (r: Result<Vec<NormalizedMemoTag>, DomainError>)
        ensures
            (exists|i: int| 0 <= i < tags@.len() && !tag_acceptable(#[trigger] tags@[i]@))
                <==> (r matches Err(e) && e.code@ == "MEMO_TAG_INVALID"@),
            (forall|i: int| 0 <= i < tags@.len() ==> tag_acceptable(#[trigger] tags@[i]@))
                ==> {
                let u = unique_tags(string_views(tags@));
                &&& (u.len() > 10 <==> (r matches Err(e) && e.code@ == "MEMO_TAG_LIMIT_EXCEEDED"@))
                &&& (tag_keys(string_views(tags@)).to_set().len() > 10
                    <==> (r matches Err(e) && e.code@ == "MEMO_TAG_LIMIT_EXCEEDED"@))
                &&& (u.len() <= 10 <==> r is Ok)
                &&& (r matches Ok(v) ==> tag_views(v@) == u)
            },
            r matches Err(e) ==> e.field matches Some(f) && f@ == "tags"@,
    {
        proof {
            lemma_unique_tag_count(string_views(tags@));
        }
        let mut normalized: Vec<NormalizedMemoTag> = Vec::new();
        let n = tags.len();
        let mut i: usize = 0;
        while i < n
            invariant
                n == tags@.len(),
                i <= n,
                forall|k: int| 0 <= k < i ==> tag_acceptable(#[trigger] tags@[k]@),
                tag_views(normalized@) == unique_tags(string_views(tags@).take(i as int)),
            decreases n - i,
        {
            let name = trimmed(tags[i].as_str());
            let count = chars_of(name.as_str()).len();
            if count == 0 || count > 30 {
                return Err(DomainError::new(
                    "MEMO_TAG_INVALID",
                    "memo tag must contain between 1 and 30 characters",
                    Some("tags"),
                ));
            }
            let key = to_lowercase(name.as_str());
            let ghost prev = tag_views(normalized@);
            let ghost taken = string_views(tags@).take(i as int + 1);
            assert(taken.drop_last() =~= string_views(tags@).take(i as int));
            assert(taken.last() == tags@[i as int]@);
            let mut found = false;
            let mut j: usize = 0;
            while j < normalized.len()
                invariant
                    j <= normalized@.len(),
                    prev == tag_views(normalized@),
                    found <==> exists|k: int| 0 <= k < j && #[trigger] prev[k].1 == key@,
                decreases normalized@.len() - j,
            {
                assert(prev[j as int] == normalized@[j as int]@);
                let same = normalized[j].normalized_name == key;
                assert(same == (prev[j as int].1 == key@));
                if same {
                    found = true;
                }
                j += 1;
            }
            if !found {
                normalized.push(NormalizedMemoTag { name, normalized_name: key });
                assert(tag_views(normalized@) =~= prev.push((trim(tags@[i as int]@), lowercase_text(trim(tags@[i as int]@)))));
            }
            i += 1;
        }
        assert(string_views(tags@).take(n as int) =~= string_views(tags@));
        if normalized.len() > 10 {
            proof {
                reveal_strlit("MEMO_TAG_LIMIT_EXCEEDED");
                reveal_strlit("MEMO_TAG_INVALID");
                assert("MEMO_TAG_LIMIT_EXCEEDED"@.len() != "MEMO_TAG_INVALID"@.len());
            }
            return Err(DomainError::new(
                "MEMO_TAG_LIMIT_EXCEEDED",
                "memo must contain at most 10 unique tags",
                Some("tags"),
            ));
        }
        Ok(normalized)
    }
}

pub struct MemoService;

/// The title shown for a memo: its trimmed title, else the first 40 characters of the
/// first non-blank body line (trimmed), else the given fallback label.
pub open spec fn display_title_of(title: Seq<char>, body: Seq<char>, untitled: Seq<char>) -> Seq<char> {
    if trim(title).len() > 0 {
        trim(title)
    } else {
        match first_content_line(body, 0) {
            Some(line) => prefix(line, 40),
            None => untitled,
        }
    }
}

/// The error for a memo that does not exist.
pub fn memo_not_found() -> (e: DomainError)
    ensures
        e.code@ == "MEMO_NOT_FOUND"@,
        e.message@ == "memo was not found"@,
        e.field is None,
{
    DomainError::new("MEMO_NOT_FOUND", "memo was not found", None)
}

impl MemoService {
    /// The memo that was read, or `MEMO_NOT_FOUND` when there was none.
    pub fn get(record: Option<MemoCoreRecord>) -> (r: Result<MemoCoreRecord, DomainError>)
        ensures
            record is Some <==> r is Ok,
            r matches Ok(m) ==> record == Some(m),
            r matches Err(e) ==> e.code@ == "MEMO_NOT_FOUND"@ && e.field is None,
    {
        match record {
            Some(m) => Ok(m),
            None => Err(memo_not_found()),
        }
    }

    pub fn display_title(title: &str, body: &str, untitled_label: &str) -> (r: String)
        ensures
            r@ == display_title_of(title@, body@, untitled_label@),
    {
        let t = trimmed(title);
        if chars_of(t.as_str()).len() > 0 {
            return t;
        }
        let v = chars_of(body);
        match find_content_line(&v) {
            Some((a, b)) => {
                let end = if b - a <= 40 { b } else { a + 40 };
                let line = string_of(&v, a, end);
                assert(line@ == prefix(v@.subrange(a as int, b as int), 40));
                line
            },
            None => untitled_label.to_string(),
        }
    }

    /// The record of a new memo: trimmed title, body as given, one timestamp (`now` in
    /// RFC 3339) for creation, update and, when pinned, pinning.
    pub fn create(id: String, input: &MemoInput, now: UtcInstant) -> (r: Result<MemoCoreRecord, DomainError>)
        ensures
            r matches Ok(m) && m.id == id && m.title@ == trim(input.title@)
                && m.body@ == input.body@
                && m.created_at@ == rfc3339_text(now.secs(), now.nano())
                && m.updated_at@ == m.created_at@
                && opt_text(m.pinned_at) == (if input.pinned { Some(m.created_at@) } else { None }),
    {
        let timestamp = to_rfc3339(&now);
        let pinned_at = if input.pinned { Some(timestamp.clone()) } else { None };
        Ok(MemoCoreRecord {
            id,
            title: trimmed(input.title.as_str()),
            body: input.body.clone(),
            pinned_at,
            created_at: timestamp.clone(),
            updated_at: timestamp,
        })
    }

    /// The record after an update: identity and creation time kept, title and body
    /// replaced, the initial pin time kept while pinned (or `now` when newly pinned),
    /// no pin time when unpinned, and `now` as the update time.
    pub fn update(current: &MemoCoreRecord, input: &MemoInput, now: UtcInstant) -> (r: Result<MemoCoreRecord, DomainError>)
        ensures
            r matches Ok(m) && m.id@ == current.id@ && m.title@ == trim(input.title@)
                && m.body@ == input.body@
                && m.created_at@ == current.created_at@
                && m.updated_at@ == rfc3339_text(now.secs(), now.nano())
                && opt_text(m.pinned_at) == (if !input.pinned {
                    None
                } else if current.pinned_at is Some {
                    opt_text(current.pinned_at)
                } else {
                    Some(m.updated_at@)
                }),
    {
        let timestamp = to_rfc3339(&now);
        let pinned_at = if input.pinned {
            match &current.pinned_at {
                Some(p) => Some(p.clone()),
                None => Some(timestamp.clone()),
            }
        } else {
            None
        };
        Ok(MemoCoreRecord {
            id: current.id.clone(),
            title: trimmed(input.title.as_str()),
            body: input.body.clone(),
            pinned_at,
            created_at: current.created_at.clone(),
            updated_at: timestamp,
        })
    }
}

} // verus!

verus! {

/// The shown title of a memo is its trimmed title when that is not empty; otherwise it is the
/// first forty characters of the body's first non-blank line (trimmed), all of the line when
/// it is shorter, and the fallback label only when the body has no such line.
pub proof fn law_display_title(title: Seq<char>, body: Seq<char>, untitled: Seq<char>)
    ensures
        trim(title).len() > 0 ==> display_title_of(title, body, untitled) == trim(title),
        trim(title).len() == 0 && first_content_line(body, 0) is None
            ==> display_title_of(title, body, untitled) == untitled,
        trim(title).len() == 0 && first_content_line(body, 0) is Some ==> ({
            let line = first_content_line(body, 0)->0;
            let shown = display_title_of(title, body, untitled);
            &&& shown.len() == if line.len() < 40 { line.len() } else { 40 }
            &&& forall|i: int| 0 <= i < shown.len() ==> shown[i] == line[i]
        }),
{
}

} // verus!
