use zero::api::{
    attach_task_to_session, create_session, delete_session, detach_task_from_session, get_session,
    list_sessions, patch_session, AttachTaskRequest, CreateSessionRequest, PatchSessionRequest,
};
use zero::sessions::{normalize_title, InMemorySessionStore, Session, SessionStore};

fn ids(s: &Session) -> Vec<&str> {
    s.task_ids.iter().map(|t| t.as_str()).collect()
}

#[test]
fn created_session_is_found_and_listed() {
    let mut store = InMemorySessionStore::new();
    let s = store.create_with("s-1".to_string(), Some("  Plan  ".to_string()), 100);
    assert_eq!(s.id, "s-1");
    assert_eq!(s.title, "Plan");
    assert!(s.task_ids.is_empty());
    assert_eq!((s.created_at, s.updated_at), (100, 100));
    let got = store.get("s-1").unwrap();
    assert_eq!(got.title, "Plan");
    assert!(store.get("s-2").is_none());
    assert_eq!(store.list().len(), 1);
}

#[test]
fn blank_or_missing_titles_get_the_default() {
    assert_eq!(normalize_title(None), "新会话");
    assert_eq!(normalize_title(Some(" \t\n".to_string())), "新会话");
    assert_eq!(normalize_title(Some("\u{3000}会话\u{3000}".to_string())), "会话");
}

#[test]
fn create_gives_fresh_uuid_ids() {
    let mut store = InMemorySessionStore::new();
    let a = store.create(None);
    let b = store.create(Some("b".to_string()));
    assert_eq!(a.id.len(), 36);
    assert_ne!(a.id, b.id);
    assert_eq!(a.title, "新会话");
    assert_eq!(a.created_at, a.updated_at);
    assert_eq!(store.list().len(), 2);
}

#[test]
fn creating_with_an_existing_id_replaces_the_session() {
    let mut store = InMemorySessionStore::new();
    store.create_with("x".to_string(), Some("one".to_string()), 1);
    store.create_with("x".to_string(), Some("two".to_string()), 2);
    let all = store.list();
    assert_eq!(all.len(), 1);
    assert_eq!(all[0].title, "two");
}

#[test]
fn tasks_are_attached_first_and_once() {
    let mut store = InMemorySessionStore::new();
    store.create_with("s".to_string(), None, 1);
    let a = store.add_task_at("s", "t1".to_string(), 5).unwrap();
    assert_eq!(ids(&a), vec!["t1"]);
    let b = store.add_task_at("s", "t2".to_string(), 6).unwrap();
    assert_eq!(ids(&b), vec!["t2", "t1"]);
    let c = store.add_task_at("s", "t1".to_string(), 7).unwrap();
    assert_eq!(ids(&c), vec!["t2", "t1"]);
    assert_eq!(c.updated_at, 7);
    assert_eq!(c.created_at, 1);
    assert!(store.add_task_at("nope", "t".to_string(), 8).is_none());
}

#[test]
fn detaching_removes_every_copy() {
    let mut store = InMemorySessionStore::new();
    store.create_with("s".to_string(), None, 1);
    store.add_task_at("s", "a".to_string(), 2);
    store.add_task_at("s", "b".to_string(), 3);
    let r = store.remove_task_at("s", "a", 4).unwrap();
    assert_eq!(ids(&r), vec!["b"]);
    assert_eq!(r.updated_at, 4);
    let r = store.remove_task_at("s", "zzz", 5).unwrap();
    assert_eq!(ids(&r), vec!["b"]);
    assert!(store.remove_task_at("none", "b", 6).is_none());
}

#[test]
fn detach_after_attach_restores_tasks() {
    let mut store = InMemorySessionStore::new();
    store.create_with("s".to_string(), None, 1);
    store.add_task_at("s", "a".to_string(), 2);
    let before = store.get("s").unwrap();
    store.add_task_at("s", "new".to_string(), 3);
    let after = store.remove_task_at("s", "new", 4).unwrap();
    assert_eq!(ids(&after), ids(&before));
}

#[test]
fn titles_change_and_time_moves() {
    let mut store = InMemorySessionStore::new();
    store.create_with("s".to_string(), Some("old".to_string()), 1);
    let s = store.update_title_at("s", "new".to_string(), 9).unwrap();
    assert_eq!(s.title, "new");
    assert_eq!(s.updated_at, 9);
    assert!(store.update_title_at("t", "x".to_string(), 9).is_none());
}

#[test]
fn deleting_forgets_the_session() {
    let mut store = InMemorySessionStore::new();
    store.create_with("a".to_string(), None, 1);
    store.create_with("b".to_string(), None, 2);
    store.delete("a");
    assert!(store.get("a").is_none());
    assert!(store.get("b").is_some());
    store.delete("missing");
    assert_eq!(store.list().len(), 1);
}

#[test]
fn list_is_most_recent_first() {
    let mut store = InMemorySessionStore::new();
    store.create_with("a".to_string(), None, 10);
    store.create_with("b".to_string(), None, 30);
    store.create_with("c".to_string(), None, 20);
    store.add_task_at("a", "t".to_string(), 40);
    let order: Vec<String> = store.list().into_iter().map(|s| s.id).collect();
    assert_eq!(order, vec!["a".to_string(), "b".to_string(), "c".to_string()]);
}

#[test]
fn session_lifecycle_through_the_endpoints() {
    let mut store = InMemorySessionStore::new();
    let created = create_session(&mut store, CreateSessionRequest { title: Some("s1".to_string()) }).unwrap();
    let id = created.id.clone();
    let attached = attach_task_to_session(
        &mut store,
        &id,
        AttachTaskRequest { task_id: "task-1".to_string() },
        true,
    )
    .unwrap();
    assert_eq!(ids(&attached), vec!["task-1"]);
    assert_eq!(list_sessions(&store).unwrap().len(), 1);
    let detached = detach_task_from_session(&mut store, &id, "task-1").unwrap();
    assert!(detached.task_ids.is_empty());
    assert!(delete_session(&mut store, &id).is_ok());
    let err = get_session(&store, &id).unwrap_err();
    assert_eq!(err.status, 404);
    assert_eq!(err.code, "not_found");
    assert_eq!(err.message, format!("session not found: {}", id));
}

#[test]
fn endpoint_errors() {
    let mut store = InMemorySessionStore::new();
    let s = create_session(&mut store, CreateSessionRequest { title: None }).unwrap();
    let e = patch_session(&mut store, &s.id, PatchSessionRequest { title: "   ".to_string() }).unwrap_err();
    assert_eq!((e.status, e.code.as_str(), e.message.as_str()), (400, "bad_request", "title cannot be empty"));
    let e = patch_session(&mut store, "nope", PatchSessionRequest { title: "x".to_string() }).unwrap_err();
    assert_eq!((e.status, e.message.as_str()), (404, "session not found: nope"));
    let ok = patch_session(&mut store, &s.id, PatchSessionRequest { title: " New ".to_string() }).unwrap();
    assert_eq!(ok.title, "New");
    let e = attach_task_to_session(&mut store, &s.id, AttachTaskRequest { task_id: "t9".to_string() }, false)
        .unwrap_err();
    assert_eq!((e.status, e.message.as_str()), (404, "task not found: t9"));
    assert!(store.get(&s.id).unwrap().task_ids.is_empty());
    let e = detach_task_from_session(&mut store, "nope", "t").unwrap_err();
    assert_eq!(e.code, "not_found");
}

#[test]
fn store_trait_answers_like_the_store() {
    let mut store = InMemorySessionStore::new();
    let s = SessionStore::create(&mut store, Some("t".to_string())).unwrap();
    assert!(SessionStore::get(&store, &s.id).unwrap().is_some());
    assert!(SessionStore::add_task(&mut store, &s.id, "x".to_string()).unwrap().is_some());
    assert_eq!(SessionStore::list(&store).unwrap().len(), 1);
    assert!(SessionStore::delete(&mut store, &s.id).is_ok());
    assert!(SessionStore::get(&store, &s.id).unwrap().is_none());
}
