use winky::notes::{
    bulk_delete_notes, create_note, delete_note, insert_note, list_notes, update_note,
    NoteBulkDeleteInput, NoteCreateInput, NoteDeleteInput, NoteEntry, NoteUpdateInput,
};

fn entry(id: &str, title: &str) -> NoteEntry {
    NoteEntry {
        id: id.to_string(),
        profile: "local".to_string(),
        title: title.to_string(),
        description: String::new(),
        x_username: String::new(),
        created_at: "2024-01-01T00:00:00Z".to_string(),
        updated_at: "2024-01-01T00:00:00Z".to_string(),
    }
}

fn seven() -> Vec<NoteEntry> {
    (1..=7).map(|i| entry(&format!("n{i}"), &format!("t{i}"))).collect()
}

#[test]
fn pagination_middle_page() {
    let entries = seven();
    let page = list_notes(&entries, 2, 3);
    assert_eq!(page.count, 7);
    let ids: Vec<&str> = page.results.iter().map(|e| e.id.as_str()).collect();
    assert_eq!(ids, vec!["n4", "n5", "n6"]);
    assert_eq!(page.next_page, Some(3));
    assert_eq!(page.previous_page, Some(1));
}

#[test]
fn pagination_edges() {
    let entries = seven();
    let first = list_notes(&entries, 1, 3);
    assert_eq!(first.previous_page, None);
    assert_eq!(first.next_page, Some(2));
    let last = list_notes(&entries, 3, 3);
    assert_eq!(last.results.len(), 1);
    assert_eq!(last.results[0].id, "n7");
    assert_eq!(last.next_page, None);
    let beyond = list_notes(&entries, 9, 3);
    assert_eq!(beyond.results.len(), 0);
    assert_eq!(beyond.next_page, None);
    // Page and size are clamped to at least one.
    let clamped = list_notes(&entries, 0, 0);
    assert_eq!(clamped.results.len(), 1);
    assert_eq!(clamped.results[0].id, "n1");
}

#[test]
fn insert_note_front_with_trimming() {
    let mut entries = vec![entry("old", "existing")];
    let payload = NoteCreateInput {
        title: "  My Note  ".to_string(),
        description: Some("desc".to_string()),
        x_username: Some("  @me ".to_string()),
    };
    let e = insert_note(&mut entries, payload, "id-1".to_string(), "now".to_string()).unwrap();
    assert_eq!(e.id, "id-1");
    assert_eq!(e.profile, "local");
    assert_eq!(e.title, "My Note");
    assert_eq!(e.description, "desc");
    assert_eq!(e.x_username, "@me");
    assert_eq!(e.created_at, "now");
    assert_eq!(entries.len(), 2);
    assert_eq!(entries[0].id, "id-1");
    assert_eq!(entries[1].id, "old");
}

#[test]
fn create_rejects_blank_title() {
    let mut entries: Vec<NoteEntry> = Vec::new();
    let payload = NoteCreateInput { title: "   ".to_string(), description: None, x_username: None };
    let err = create_note(&mut entries, payload).unwrap_err();
    assert_eq!(err, "Title cannot be empty");
    assert!(entries.is_empty());
}

#[test]
fn create_draws_fresh_id() {
    let mut entries: Vec<NoteEntry> = Vec::new();
    let payload = NoteCreateInput { title: "a".to_string(), description: None, x_username: None };
    let e = create_note(&mut entries, payload).unwrap();
    assert_eq!(e.id.len(), 36);
    assert_eq!(entries.len(), 1);
}

#[test]
fn update_rules() {
    let mut entries = seven();
    let missing = NoteUpdateInput {
        id: "nope".to_string(),
        title: None,
        description: None,
        x_username: None,
    };
    assert_eq!(update_note(&mut entries, &missing).unwrap_err(), "Note not found");

    let blank = NoteUpdateInput {
        id: "n3".to_string(),
        title: Some("  ".to_string()),
        description: None,
        x_username: None,
    };
    assert_eq!(update_note(&mut entries, &blank).unwrap_err(), "Title cannot be empty");
    assert_eq!(entries[2].title, "t3");

    let good = NoteUpdateInput {
        id: "n3".to_string(),
        title: Some("  New Title ".to_string()),
        description: Some("d".to_string()),
        x_username: Some(" @x ".to_string()),
    };
    let e = update_note(&mut entries, &good).unwrap();
    assert_eq!(e.title, "New Title");
    assert_eq!(e.description, "d");
    assert_eq!(e.x_username, "@x");
    assert_eq!(e.updated_at, entries[2].updated_at);
    assert_eq!(entries[2].title, "New Title");
    assert_eq!(entries.len(), 7);
}

#[test]
fn delete_rules() {
    let mut entries = seven();
    let missing = NoteDeleteInput { id: "zz".to_string() };
    assert_eq!(delete_note(&mut entries, &missing).unwrap_err(), "Note not found");
    assert_eq!(entries.len(), 7);
    let hit = NoteDeleteInput { id: "n4".to_string() };
    delete_note(&mut entries, &hit).unwrap();
    assert_eq!(entries.len(), 6);
    assert!(entries.iter().all(|e| e.id != "n4"));
}

#[test]
fn bulk_delete_rules() {
    let mut entries = seven();
    let empty = NoteBulkDeleteInput { ids: Vec::new() };
    assert_eq!(bulk_delete_notes(&mut entries, &empty).unwrap_err(), "Ids cannot be empty");
    let some = NoteBulkDeleteInput {
        ids: vec!["n1".to_string(), "n6".to_string(), "zz".to_string()],
    };
    let resp = bulk_delete_notes(&mut entries, &some).unwrap();
    assert_eq!(resp.deleted_count, 2);
    assert_eq!(entries.len(), 5);
    assert_eq!(entries[0].id, "n2");
}
