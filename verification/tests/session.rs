use zclone_core::models::Role;
use zclone_core::session::SessionManager;

#[test]
fn created_session_is_stored_and_active() {
    let mut mgr = SessionManager::new();
    let id = mgr.create_session("First");
    assert_eq!(id.chars().count(), 36);

    let session = mgr.get_session(&id).expect("session should be present");
    assert_eq!(session.title, "First");
    assert!(session.messages.is_empty());

    let active = mgr.get_active_session().expect("new session becomes active");
    assert_eq!(active.id, id);
}

#[test]
fn unknown_id_is_not_found() {
    let mut mgr = SessionManager::new();
    mgr.create_session("First");
    assert!(mgr.get_session("no-such-id").is_none());
    assert!(mgr.get_session_mut("no-such-id").is_none());
}

#[test]
fn mutation_through_get_session_mut_is_kept() {
    let mut mgr = SessionManager::new();
    let id = mgr.create_session("First");
    {
        let session = mgr.get_session_mut(&id).unwrap();
        session.add_message(Role::User, "Hello");
        session.set_title("Renamed");
    }
    let session = mgr.get_session(&id).unwrap();
    assert_eq!(session.title, "Renamed");
    assert_eq!(session.messages.len(), 1);
    assert_eq!(session.messages[0].content, "Hello");
}

#[test]
fn set_active_session_checks_presence() {
    let mut mgr = SessionManager::new();
    let a = mgr.create_session("A");
    let b = mgr.create_session("B");
    assert_eq!(mgr.get_active_session().unwrap().id, b);

    mgr.set_active_session(a.clone());
    assert_eq!(mgr.get_active_session().unwrap().id, a);

    // An unknown id leaves the active session alone.
    mgr.set_active_session("no-such-id".to_string());
    assert_eq!(mgr.get_active_session().unwrap().id, a);
}

#[test]
fn active_session_can_be_mutated() {
    let mut mgr = SessionManager::new();
    let id = mgr.create_session("A");
    mgr.get_active_session_mut().unwrap().archive();
    assert!(mgr.get_session(&id).unwrap().is_archived);
}

#[test]
fn list_sessions_is_most_recent_first() {
    let mut mgr = SessionManager::new();
    let a = mgr.create_session("A");
    let b = mgr.create_session("B");
    let c = mgr.create_session("C");

    // Touch A so that it becomes the most recently updated; timestamps have
    // whole-second resolution, so set them directly to distinct values.
    {
        let s = mgr.get_session_mut(&a).unwrap();
        s.updated_at = 300;
    }
    {
        let s = mgr.get_session_mut(&b).unwrap();
        s.updated_at = 100;
    }
    {
        let s = mgr.get_session_mut(&c).unwrap();
        s.updated_at = 200;
    }

    let listed = mgr.list_sessions();
    let ids: Vec<String> = listed.iter().map(|s| s.id.clone()).collect();
    assert_eq!(ids, vec![a, c, b]);
}

#[test]
fn delete_session_removes_and_clears_active() {
    let mut mgr = SessionManager::new();
    let a = mgr.create_session("A");
    let b = mgr.create_session("B");

    // Deleting a non-active session keeps the active one.
    assert!(mgr.delete_session(&a));
    assert_eq!(mgr.get_active_session().unwrap().id, b);

    // Deleting the active session clears the active id.
    assert!(mgr.delete_session(&b));
    assert!(mgr.get_active_session().is_none());
    assert!(mgr.get_session(&b).is_none());

    // Deleting an unknown id reports failure.
    assert!(!mgr.delete_session(&b));
}

#[test]
fn default_manager_is_empty() {
    let mgr = SessionManager::default();
    assert!(mgr.list_sessions().is_empty());
    assert!(mgr.get_active_session().is_none());
}
