//! Locally stored notes: the entry type and the rules for listing,
//! creating, updating and deleting.
//!
//! Reading and writing the notes file is I/O and stays outside the
//! library; the functions here work on the list of entries itself.  The
//! composite operations draw the fresh identifier and timestamp through
//! trusted wrappers and hand them to exactly specified pure cores.

use vstd::prelude::*;

use crate::text::{trim_spaces, trimmed};

verus! {

/// One stored note.
#[derive(Debug)]
pub struct NoteEntry {
    pub id: String,
    pub profile: String,
    pub title: String,
    pub description: String,
    pub x_username: String,
    pub created_at: String,
    pub updated_at: String,
}

impl NoteEntry {
    /// A copy whose value is known to equal the original.
    pub fn duplicate(&self) -> (r: NoteEntry)
        ensures
            r == *self,
    {
        NoteEntry {
            id: self.id.clone(),
            profile: self.profile.clone(),
            title: self.title.clone(),
            description: self.description.clone(),
            x_username: self.x_username.clone(),
            created_at: self.created_at.clone(),
            updated_at: self.updated_at.clone(),
        }
    }
}

/// One page of notes.
#[derive(Debug)]
pub struct NoteListResponse {
    pub count: usize,
    pub next_page: Option<u32>,
    pub previous_page: Option<u32>,
    pub results: Vec<NoteEntry>,
}

/// Input for creating a note.
#[derive(Debug)]
pub struct NoteCreateInput {
    pub title: String,
    pub description: Option<String>,
    pub x_username: Option<String>,
}

/// Input for updating a note.
#[derive(Debug)]
pub struct NoteUpdateInput {
    pub id: String,
    pub title: Option<String>,
    pub description: Option<String>,
    pub x_username: Option<String>,
}

/// Input for deleting one note.
#[derive(Debug)]
pub struct NoteDeleteInput {
    pub id: String,
}

/// Input for deleting several notes at once.
#[derive(Debug)]
pub struct NoteBulkDeleteInput {
    pub ids: Vec<String>,
}

/// Outcome of a bulk deletion.
#[derive(Debug)]
pub struct NoteBulkDeleteResponse {
    pub deleted_count: usize,
}

/// The page bounds for a list of `total` entries: the normalized page and
/// page size (both at least one), and the start and end indices of the
/// requested slice.
pub open spec fn page_bounds(total: int, page: u32, page_size: u32) -> (int, int)
{
    let p = if page < 1 { 1 as int } else { page as int };
    let sz = if page_size < 1 { 1 as int } else { page_size as int };
    let start = (p - 1) * sz;
    let end = if start + sz < total { start + sz } else { total };
    (start, end)
}

/// Lists one page of notes, newest first, with one-based page navigation:
/// the result carries the total count, the requested slice, and the
/// neighbouring page numbers where they exist.
pub fn list_notes(entries: &Vec<NoteEntry>, page: u32, page_size: u32) -> (r: NoteListResponse)
    requires
        entries@.len() < u32::MAX,
    ensures
        ({
            let total = entries@.len() as int;
            let (start, end) = page_bounds(total, page, page_size);
            let p = if page < 1 { 1 as int } else { page as int };
            &&& r.count == entries@.len()
            &&& (start < total ==> r.results@ == entries@.subrange(start, end))
            &&& (start >= total ==> r.results@.len() == 0)
            &&& r.next_page == if end < total && start < total {
                Option::Some((p + 1) as u32)
            } else {
                Option::<u32>::None
            }
            &&& r.previous_page == if p > 1 && start > 0 {
                Option::Some((p - 1) as u32)
            } else {
                Option::<u32>::None
            }
        }),
{
    let p: u32 = if page < 1 {
        1
    } else {
        page
    };
    let sz: u32 = if page_size < 1 {
        1
    } else {
        page_size
    };
    let total = entries.len();
    proof {
        assert((p as u64 - 1) * (sz as u64) <= 0xffff_fffe_0000_0001) by (nonlinear_arith)
            requires
                1 <= p as u64 <= 0xffff_ffff,
                sz as u64 <= 0xffff_ffff,
        ;
    }
    let start_wide: u64 = (p as u64 - 1) * (sz as u64);
    let mut results: Vec<NoteEntry> = Vec::new();
    let mut next_page: Option<u32> = None;
    let mut previous_page: Option<u32> = None;
    if start_wide < total as u64 {
        let start = start_wide as usize;
        let end_wide: u64 = start_wide + sz as u64;
        let end: usize = if end_wide < total as u64 {
            end_wide as usize
        } else {
            total
        };
        let mut i = start;
        while i < end
            invariant
                start <= i <= end,
                end <= entries@.len(),
                results@ == entries@.subrange(start as int, i as int),
            decreases end - i,
        {
            results.push(entries[i].duplicate());
            proof {
                assert(entries@.subrange(start as int, i + 1) =~= entries@.subrange(
                    start as int,
                    i as int,
                ).push(entries@[i as int]));
            }
            i = i + 1;
        }
        if end < total {
            proof {
                assert((p as u64 - 1) * (sz as u64) >= p as u64 - 1) by (nonlinear_arith)
                    requires
                        p >= 1,
                        sz >= 1,
                ;
            }
            next_page = Some(p + 1);
        }
        if p > 1 && start > 0 {
            previous_page = Some(p - 1);
        }
    } else {
        if p > 1 && start_wide > 0 {
            previous_page = Some(p - 1);
        }
    }
    NoteListResponse { count: total, next_page, previous_page, results }
}

/// Inserts a freshly created note at the front of the list.  Fails, leaving
/// the list unchanged, exactly when the title is blank.
pub fn insert_note(
    entries: &mut Vec<NoteEntry>,
    payload: NoteCreateInput,
    id: String,
    now: String,
) -> (r: Result<NoteEntry, String>)
    ensures
        trimmed(payload.title@).len() == 0 <==> r is Err,
        r matches Err(e) ==> (e@ == "Title cannot be empty"@ && final(entries)@ == old(entries)@),
        r matches Ok(entry) ==> ({
            &&& final(entries)@ == seq![entry].add(old(entries)@)
            &&& entry.id == id
            &&& entry.profile@ == "local"@
            &&& entry.title@ == trimmed(payload.title@)
            &&& entry.description@ == (match payload.description {
                Option::Some(d) => d@,
                Option::None => Seq::<char>::empty(),
            })
            &&& entry.x_username@ == trimmed(
                match payload.x_username {
                    Option::Some(x) => x@,
                    Option::None => Seq::<char>::empty(),
                },
            )
            &&& entry.created_at == now
            &&& entry.updated_at == now
        }),
{
    let title = trim_spaces(payload.title.as_str());
    if title.as_str().unicode_len() == 0 {
        return Err(String::from_str("Title cannot be empty"));
    }
    let description = match payload.description {
        Some(d) => d,
        None => String::new(),
    };
    let x_username = match payload.x_username {
        Some(x) => trim_spaces(x.as_str()),
        None => {
            let empty = String::new();
            let t = trim_spaces(empty.as_str());
            t
        },
    };
    let entry = NoteEntry {
        id,
        profile: String::from_str("local"),
        title,
        description,
        x_username,
        created_at: now.clone(),
        updated_at: now,
    };
    let result = entry.duplicate();
    entries.insert(0, entry);
    proof {
        assert(final(entries)@ =~= seq![result].add(old(entries)@));
    }
    Ok(result)
}

/// Creates a note with a fresh identifier and the current time and inserts
/// it at the front of the list.  Fails, leaving the list unchanged, exactly
/// when the title is blank.
pub fn create_note(entries: &mut Vec<NoteEntry>, payload: NoteCreateInput) -> (r: Result<
    NoteEntry,
    String,
>)
    ensures
        trimmed(payload.title@).len() == 0 <==> r is Err,
        r matches Err(e) ==> (e@ == "Title cannot be empty"@ && final(entries)@ == old(entries)@),
        r matches Ok(entry) ==> ({
            &&& final(entries)@ == seq![entry].add(old(entries)@)
            &&& entry.profile@ == "local"@
            &&& entry.title@ == trimmed(payload.title@)
            &&& entry.description@ == (match payload.description {
                Option::Some(d) => d@,
                Option::None => Seq::<char>::empty(),
            })
            &&& entry.x_username@ == trimmed(
                match payload.x_username {
                    Option::Some(x) => x@,
                    Option::None => Seq::<char>::empty(),
                },
            )
            &&& entry.updated_at == entry.created_at
        }),
{
    let id = crate::ids::new_uuid_string();
    let now = crate::clock::now_rfc3339();
    insert_note(entries, payload, id, now)
}

/// The position of the first entry with the given id, or the length when
/// none matches.
pub open spec fn note_index(s: Seq<NoteEntry>, id: Seq<char>) -> int
    decreases s.len(),
{
    if s.len() == 0 {
        0
    } else if s[0].id@ == id {
        0
    } else {
        1 + note_index(s.skip(1), id)
    }
}

/// `note_index` is determined by its characterization.
pub proof fn lemma_note_index_at(s: Seq<NoteEntry>, id: Seq<char>, k: int)
    requires
        0 <= k <= s.len(),
        forall|m: int| 0 <= m < k ==> s[m].id@ != id,
        k == s.len() || s[k].id@ == id,
    ensures
        note_index(s, id) == k,
    decreases k,
{
    if k > 0 {
        lemma_note_index_at(s.skip(1), id, k - 1);
    }
}

/// Applies an update to the first entry with the requested id: a present
/// title must not be blank and is stored trimmed, a present description is
/// stored as given, a present handle is stored trimmed, and the entry's
/// update time becomes `now`.  Fails, leaving the list unchanged, when no
/// entry matches or the new title is blank.
pub fn apply_note_update(
    entries: &mut Vec<NoteEntry>,
    payload: &NoteUpdateInput,
    now: String,
) -> (r: Result<NoteEntry, String>)
    ensures
        ({
            let i = note_index(old(entries)@, payload.id@);
            let blank_title = match payload.title {
                Option::Some(t) => trimmed(t@).len() == 0,
                Option::None => false,
            };
            if i == old(entries)@.len() {
                r matches Err(e) && e@ == "Note not found"@ && final(entries)@ == old(entries)@
            } else if blank_title {
                r matches Err(e) && e@ == "Title cannot be empty"@ && final(entries)@ == old(
                    entries,
                )@
            } else {
                r matches Ok(entry) && final(entries)@ == old(entries)@.update(i, entry)
                    && entry.id == old(entries)@[i].id && entry.profile == old(entries)@[i].profile
                    && entry.title@ == (match payload.title {
                    Option::Some(t) => trimmed(t@),
                    Option::None => old(entries)@[i].title@,
                }) && entry.description@ == (match payload.description {
                    Option::Some(d) => d@,
                    Option::None => old(entries)@[i].description@,
                }) && entry.x_username@ == (match payload.x_username {
                    Option::Some(x) => trimmed(x@),
                    Option::None => old(entries)@[i].x_username@,
                }) && entry.created_at == old(entries)@[i].created_at && entry.updated_at == now
            }
        }),
{
    let n = entries.len();
    let mut i: usize = 0;
    while i < n && !entries[i].id.eq(&payload.id)
        invariant
            0 <= i <= n,
            n == entries@.len(),
            forall|m: int| 0 <= m < i ==> entries@[m].id@ != payload.id@,
        decreases n - i,
    {
        i = i + 1;
    }
    proof {
        lemma_note_index_at(entries@, payload.id@, i as int);
    }
    if i == n {
        return Err(String::from_str("Note not found"));
    }
    let new_title = match &payload.title {
        Some(t) => {
            let trimmed_title = trim_spaces(t.as_str());
            if trimmed_title.as_str().unicode_len() == 0 {
                return Err(String::from_str("Title cannot be empty"));
            }
            Some(trimmed_title)
        },
        None => None,
    };
    let old_entry = entries[i].duplicate();
    let entry = NoteEntry {
        id: old_entry.id,
        profile: old_entry.profile,
        title: match new_title {
            Some(t) => t,
            None => old_entry.title,
        },
        description: match &payload.description {
            Some(d) => d.clone(),
            None => old_entry.description,
        },
        x_username: match &payload.x_username {
            Some(x) => trim_spaces(x.as_str()),
            None => old_entry.x_username,
        },
        created_at: old_entry.created_at,
        updated_at: now,
    };
    let result = entry.duplicate();
    entries.remove(i);
    entries.insert(i, entry);
    proof {
        assert(final(entries)@ =~= old(entries)@.update(i as int, result));
    }
    Ok(result)
}

/// Updates the first entry with the requested id, stamping the current
/// time.
pub fn update_note(entries: &mut Vec<NoteEntry>, payload: &NoteUpdateInput) -> (r: Result<
    NoteEntry,
    String,
>)
    ensures
        ({
            let i = note_index(old(entries)@, payload.id@);
            let blank_title = match payload.title {
                Option::Some(t) => trimmed(t@).len() == 0,
                Option::None => false,
            };
            if i == old(entries)@.len() {
                r matches Err(e) && e@ == "Note not found"@ && final(entries)@ == old(entries)@
            } else if blank_title {
                r matches Err(e) && e@ == "Title cannot be empty"@ && final(entries)@ == old(
                    entries,
                )@
            } else {
                r matches Ok(entry) && final(entries)@ == old(entries)@.update(i, entry)
                    && entry.id == old(entries)@[i].id
            }
        }),
{
    let now = crate::clock::now_rfc3339();
    apply_note_update(entries, payload, now)
}

/// Whether `id` occurs among the given identifiers.
pub open spec fn id_among(ids: Seq<String>, id: Seq<char>) -> bool {
    exists|i: int| 0 <= i < ids.len() && ids[i]@ == id
}

/// The entries whose id is not among `ids`, in order.
pub open spec fn keep_others(s: Seq<NoteEntry>, ids: Seq<String>) -> Seq<NoteEntry>
    decreases s.len(),
{
    if s.len() == 0 {
        Seq::empty()
    } else {
        let rest = keep_others(s.skip(1), ids);
        if id_among(ids, s[0].id@) {
            rest
        } else {
            seq![s[0]] + rest
        }
    }
}

/// One unfolding of [`keep_others`].
proof fn lemma_keep_others_unfold(s: Seq<NoteEntry>, ids: Seq<String>)
    requires
        s.len() > 0,
    ensures
        keep_others(s, ids) == (if id_among(ids, s[0].id@) {
            keep_others(s.skip(1), ids)
        } else {
            seq![s[0]] + keep_others(s.skip(1), ids)
        }),
{
}

/// Whether `id` occurs among the given identifiers.
fn contains_id(ids: &Vec<String>, id: &String) -> (r: bool)
    ensures
        r == id_among(ids@, id@),
{
    let mut i: usize = 0;
    while i < ids.len()
        invariant
            0 <= i <= ids@.len(),
            forall|m: int| 0 <= m < i ==> ids@[m]@ != id@,
        decreases ids@.len() - i,
    {
        if ids[i].eq(id) {
            return true;
        }
        i = i + 1;
    }
    false
}

/// Removes every entry whose id is among `ids`; the remaining entries keep
/// their order.
fn retain_others(entries: &mut Vec<NoteEntry>, ids: &Vec<String>)
    ensures
        final(entries)@ == keep_others(old(entries)@, ids@),
{
    let n = entries.len();
    let mut kept: Vec<NoteEntry> = Vec::new();
    let mut i: usize = 0;
    proof {
        assert(entries@.skip(0) =~= entries@);
        assert(kept@ + entries@ =~= entries@);
    }
    while i < n
        invariant
            0 <= i <= n,
            n == entries@.len(),
            keep_others(entries@, ids@) == kept@ + keep_others(entries@.skip(i as int), ids@),
        decreases n - i,
    {
        let ghost pre_kept = kept@;
        let ghost remaining = entries@.skip(i as int);
        proof {
            assert(remaining[0] == entries@[i as int]);
            assert(remaining.skip(1) =~= entries@.skip(i + 1));
            lemma_keep_others_unfold(remaining, ids@);
        }
        if !contains_id(ids, &entries[i].id) {
            kept.push(entries[i].duplicate());
            proof {
                assert(kept@ =~= pre_kept.push(remaining[0]));
                assert(pre_kept.push(remaining[0]) + keep_others(remaining.skip(1), ids@)
                    =~= pre_kept + (seq![remaining[0]] + keep_others(remaining.skip(1), ids@)));
            }
        }
        i = i + 1;
    }
    proof {
        assert(entries@.skip(n as int) =~= Seq::<NoteEntry>::empty());
        assert(kept@ + Seq::<NoteEntry>::empty() =~= kept@);
    }
    *entries = kept;
}

/// Deletes the notes with the requested id.  Fails, leaving the list
/// unchanged, exactly when no entry matches.
pub fn delete_note(entries: &mut Vec<NoteEntry>, payload: &NoteDeleteInput) -> (r: Result<
    (),
    String,
>)
    ensures
        ({
            let matched = exists|m: int|
                0 <= m < old(entries)@.len() && #[trigger] old(entries)@[m].id@ == payload.id@;
            if matched {
                r is Ok && final(entries)@ == keep_others(
                    old(entries)@,
                    seq![payload.id],
                )
            } else {
                r matches Err(e) && e@ == "Note not found"@ && final(entries)@ == old(entries)@
            }
        }),
{
    let mut found = false;
    let n = entries.len();
    let mut i: usize = 0;
    while i < n
        invariant
            0 <= i <= n,
            n == entries@.len(),
            found == exists|m: int|
                0 <= m < i && #[trigger] entries@[m].id@ == payload.id@,
        decreases n - i,
    {
        if entries[i].id.eq(&payload.id) {
            found = true;
        }
        i = i + 1;
    }
    if !found {
        return Err(String::from_str("Note not found"));
    }
    let mut ids: Vec<String> = Vec::new();
    ids.push(payload.id.clone());
    proof {
        assert(ids@ =~= seq![payload.id]);
    }
    retain_others(entries, &ids);
    Ok(())
}

/// Deletes every note whose id is among the requested identifiers and
/// reports how many were removed.  Fails, leaving the list unchanged,
/// exactly when no identifiers were given at all.
pub fn bulk_delete_notes(entries: &mut Vec<NoteEntry>, payload: &NoteBulkDeleteInput) -> (r:
    Result<NoteBulkDeleteResponse, String>)
    ensures
        payload.ids@.len() == 0 <==> r is Err,
        r matches Err(e) ==> (e@ == "Ids cannot be empty"@ && final(entries)@ == old(entries)@),
        r matches Ok(resp) ==> ({
            &&& final(entries)@ == keep_others(old(entries)@, payload.ids@)
            &&& resp.deleted_count == old(entries)@.len() - final(entries)@.len()
        }),
{
    if payload.ids.len() == 0 {
        return Err(String::from_str("Ids cannot be empty"));
    }
    let before = entries.len();
    retain_others(entries, &payload.ids);
    proof {
        lemma_keep_others_len(old(entries)@, payload.ids@);
    }
    let deleted_count = before - entries.len();
    Ok(NoteBulkDeleteResponse { deleted_count })
}

/// Removal never lengthens the list.
proof fn lemma_keep_others_len(s: Seq<NoteEntry>, ids: Seq<String>)
    ensures
        keep_others(s, ids).len() <= s.len(),
    decreases s.len(),
{
    if s.len() > 0 {
        lemma_keep_others_len(s.skip(1), ids);
    }
}

} // verus!
