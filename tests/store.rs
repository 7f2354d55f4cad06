use life_manager::handlers::{
    create_entry, create_entry_at, delete_entry, list_entries, update_entry, update_entry_at,
    AppState, StoreError,
};
use life_manager::model::{default_status, Entry, Timestamp, NIL_ID};

fn ts(secs: i64, nanos: u32) -> Timestamp {
    Timestamp { secs, nanos }
}

fn payload(title: &str) -> Entry {
    Entry {
        id: NIL_ID,
        template_type: "task".to_string(),
        title: title.to_string(),
        description: String::new(),
        tags: Vec::new(),
        frequency: None,
        status: "Whatever".to_string(),
        event_date: None,
        details: "{}".to_string(),
        created_at: ts(5, 0),
        updated_at: None,
    }
}

fn empty_state() -> AppState {
    AppState::new("data.json", None)
}

fn titles(v: &[Entry]) -> Vec<String> {
    v.iter().map(|e| e.title.clone()).collect()
}

#[test]
fn default_status_is_active() {
    assert_eq!(default_status(), "Active");
}

#[test]
fn scenario_pay_rent_and_dentist() {
    let mut st = empty_state();
    let mut a = payload("Pay rent");
    a.frequency = Some("monthly".to_string());
    let a = create_entry_at(&mut st, a, 11, ts(100, 0));
    let listed = list_entries(&st);
    assert_eq!(listed.len(), 1);
    assert_eq!(listed[0].id, 11);
    assert_eq!(listed[0].status, "Active");
    assert_eq!(listed[0].frequency.as_deref(), Some("monthly"));

    let mut b = payload("Dentist");
    b.event_date = Some(ts(5000, 0));
    let b = create_entry_at(&mut st, b, 22, ts(200, 0));
    assert_eq!(titles(&list_entries(&st)), vec!["Dentist", "Pay rent"]);

    let mut change = payload("Pay rent");
    change.frequency = Some("monthly".to_string());
    change.description = "to landlord".to_string();
    assert_eq!(update_entry_at(&mut st, a.id, change, ts(300, 0)), Ok(()));
    let listed = list_entries(&st);
    assert_eq!(titles(&listed), vec!["Dentist", "Pay rent"]);
    assert_eq!(listed[1].description, "to landlord");
    assert_eq!(listed[1].updated_at, Some(ts(300, 0)));

    delete_entry(&mut st, b.id);
    assert_eq!(titles(&list_entries(&st)), vec!["Pay rent"]);
    delete_entry(&mut st, b.id);
    assert_eq!(titles(&list_entries(&st)), vec!["Pay rent"]);
}

#[test]
fn creates_count_and_nonnil_ids() {
    let mut st = empty_state();
    for k in 0..5u128 {
        let e = create_entry(&mut st, payload("x"));
        assert_ne!(e.id, NIL_ID);
        assert_eq!(st.entries.len() as u128, k + 1);
    }
    let listed = list_entries(&st);
    assert_eq!(listed.len(), 5);
    let mut ids: Vec<u128> = listed.iter().map(|e| e.id).collect();
    ids.sort();
    ids.dedup();
    assert_eq!(ids.len(), 5);
}

#[test]
fn create_keeps_given_id() {
    let mut st = empty_state();
    let mut p = payload("given");
    p.id = 0x1234;
    let e = create_entry(&mut st, p);
    assert_eq!(e.id, 0x1234);
    let e2 = create_entry_at(&mut st, payload("nil"), 77, ts(1, 0));
    assert_eq!(e2.id, 77);
}

#[test]
fn create_overwrites_status_and_created_at() {
    let mut st = empty_state();
    let e = create_entry(&mut st, payload("t"));
    assert_eq!(e.status, "Active");
    assert_ne!(e.created_at, ts(5, 0));
    assert!(e.created_at.secs > 1_600_000_000);
    let e2 = create_entry_at(&mut st, payload("u"), 9, ts(42, 7));
    assert_eq!(e2.created_at, ts(42, 7));
    assert_eq!(e2.status, "Active");
    assert_eq!(e2.details, "{}");
}

#[test]
fn update_unknown_id_is_not_found() {
    let mut st = empty_state();
    create_entry_at(&mut st, payload("a"), 1, ts(1, 0));
    assert_eq!(update_entry(&mut st, 99, payload("b")), Err(StoreError::NotFound));
    assert_eq!(update_entry_at(&mut st, 99, payload("b"), ts(2, 0)), Err(StoreError::NotFound));
    assert_eq!(st.entries.len(), 1);
    assert_eq!(st.entries[0].title, "a");
    assert_eq!(st.entries[0].updated_at, None);
}

#[test]
fn update_changes_exactly_editable_fields() {
    let mut st = empty_state();
    let mut p = payload("old");
    p.template_type = "appointment".to_string();
    create_entry_at(&mut st, p, 3, ts(10, 0));
    let mut q = payload("new");
    q.id = 555;
    q.template_type = "other".to_string();
    q.description = "d".to_string();
    q.tags = vec!["x".to_string(), "x".to_string()];
    q.frequency = Some("weekly".to_string());
    q.details = "{\"k\":1}".to_string();
    q.event_date = Some(ts(99, 1));
    q.status = "Done".to_string();
    q.created_at = ts(1, 0);
    assert_eq!(update_entry_at(&mut st, 3, q, ts(20, 0)), Ok(()));
    let e = &st.entries[0];
    assert_eq!(e.id, 3);
    assert_eq!(e.template_type, "appointment");
    assert_eq!(e.status, "Active");
    assert_eq!(e.created_at, ts(10, 0));
    assert_eq!(e.title, "new");
    assert_eq!(e.description, "d");
    assert_eq!(e.tags, vec!["x".to_string(), "x".to_string()]);
    assert_eq!(e.frequency.as_deref(), Some("weekly"));
    assert_eq!(e.details, "{\"k\":1}");
    assert_eq!(e.event_date, Some(ts(99, 1)));
    assert_eq!(e.updated_at, Some(ts(20, 0)));
    assert_eq!(update_entry(&mut st, 3, payload("later")), Ok(()));
    let later = st.entries[0].updated_at.unwrap();
    assert!(later.secs > 20);
}

#[test]
fn update_touches_first_match_only() {
    let mut st = empty_state();
    let mut p = payload("one");
    p.id = 8;
    create_entry_at(&mut st, p, 0, ts(1, 0));
    let mut p = payload("two");
    p.id = 8;
    create_entry_at(&mut st, p, 0, ts(2, 0));
    assert_eq!(update_entry_at(&mut st, 8, payload("changed"), ts(3, 0)), Ok(()));
    assert_eq!(titles(&st.entries), vec!["changed", "two"]);
}

#[test]
fn delete_unknown_id_is_noop() {
    let mut st = empty_state();
    create_entry_at(&mut st, payload("a"), 1, ts(1, 0));
    create_entry_at(&mut st, payload("b"), 2, ts(2, 0));
    delete_entry(&mut st, 42);
    assert_eq!(titles(&st.entries), vec!["a", "b"]);
    delete_entry(&mut st, 1);
    assert_eq!(titles(&st.entries), vec!["b"]);
    delete_entry(&mut st, 1);
    assert_eq!(titles(&st.entries), vec!["b"]);
}

#[test]
fn delete_removes_every_match() {
    let mut st = empty_state();
    for t in ["a", "b", "c"] {
        let mut p = payload(t);
        p.id = if t == "b" { 5 } else { 6 };
        create_entry_at(&mut st, p, 0, ts(1, 0));
    }
    delete_entry(&mut st, 6);
    assert_eq!(titles(&st.entries), vec!["b"]);
}

#[test]
fn list_newest_first_keeps_every_entry() {
    let mut st = empty_state();
    create_entry_at(&mut st, payload("mid"), 1, ts(50, 0));
    create_entry_at(&mut st, payload("old"), 2, ts(10, 999));
    create_entry_at(&mut st, payload("new"), 3, ts(50, 1));
    create_entry_at(&mut st, payload("mid2"), 4, ts(50, 0));
    create_entry_at(&mut st, payload("oldest"), 5, ts(-3, 0));
    let listed = list_entries(&st);
    assert_eq!(titles(&listed), vec!["new", "mid", "mid2", "old", "oldest"]);
    assert_eq!(titles(&st.entries), vec!["mid", "old", "new", "mid2", "oldest"]);
}

#[test]
fn list_of_empty_store_is_empty() {
    let st = empty_state();
    assert!(list_entries(&st).is_empty());
}

#[test]
fn save_then_reload_reproduces_collection() {
    let mut st = empty_state();
    let mut p = payload("a");
    p.tags = vec!["t1".to_string()];
    create_entry_at(&mut st, p, 1, ts(1, 0));
    create_entry_at(&mut st, payload("b"), 2, ts(2, 0));
    update_entry_at(&mut st, 1, payload("a2"), ts(3, 0)).unwrap();
    let snapshot = st.save();
    let reloaded = AppState::new("data.json", Some(snapshot));
    assert_eq!(reloaded.file_path, "data.json");
    assert_eq!(reloaded.entries.len(), st.entries.len());
    for (x, y) in reloaded.entries.iter().zip(st.entries.iter()) {
        assert_eq!(x.id, y.id);
        assert_eq!(x.title, y.title);
        assert_eq!(x.tags, y.tags);
        assert_eq!(x.created_at, y.created_at);
        assert_eq!(x.updated_at, y.updated_at);
    }
}

#[test]
fn new_without_file_starts_empty() {
    let st = AppState::new("missing.json", None);
    assert!(st.entries.is_empty());
    assert_eq!(st.file_path, "missing.json");
}

#[test]
fn timestamp_order() {
    assert!(ts(1, 5).is_before(&ts(2, 0)));
    assert!(ts(1, 5).is_before(&ts(1, 6)));
    assert!(!ts(1, 6).is_before(&ts(1, 6)));
    assert!(!ts(2, 0).is_before(&ts(1, 999)));
}
