use zclone_core::models::AppSettings;
use zclone_core::models::AppState;
use zclone_core::models::ChatSession;
use zclone_core::models::Message;
use zclone_core::models::Role;
use zclone_core::models::Theme;

#[test]
fn new_message_has_fresh_id_and_content() {
    let m = Message::new(Role::User, "Hello");
    assert_eq!(m.role, Role::User);
    assert_eq!(m.content, "Hello");
    assert!(!m.is_streaming);
    assert_eq!(m.id.chars().count(), 36);

    let other = Message::new(Role::User, "Hello");
    assert_ne!(m.id, other.id);
}

#[test]
fn streaming_message_appends_and_completes() {
    let mut m = Message::new_streaming(Role::Assistant);
    assert!(m.is_streaming);
    assert_eq!(m.content, "");
    m.append_content("Hel");
    m.append_content("lo");
    assert_eq!(m.content, "Hello");
    m.complete_streaming();
    assert!(!m.is_streaming);
    assert_eq!(m.content, "Hello");
}

#[test]
fn new_session_is_empty_and_unarchived() {
    let s = ChatSession::new("My chat");
    assert_eq!(s.title, "My chat");
    assert!(s.messages.is_empty());
    assert_eq!(s.created_at, s.updated_at);
    assert!(s.preview.is_none());
    assert!(!s.is_archived);
    assert_eq!(s.id.chars().count(), 36);
}

#[test]
fn add_message_sets_preview_from_first_user_message() {
    let mut s = ChatSession::new("t");
    s.add_message(Role::System, "system prompt");
    assert!(s.preview.is_none());
    s.add_message(Role::User, "short question");
    assert_eq!(s.preview.as_deref(), Some("short question"));
    // The preview keeps pointing at the first user message.
    s.add_message(Role::User, "second question");
    assert_eq!(s.preview.as_deref(), Some("short question"));
    assert_eq!(s.messages.len(), 3);
    assert_eq!(s.messages[2].content, "second question");
}

#[test]
fn long_first_user_message_is_shortened_with_ellipsis() {
    let mut s = ChatSession::new("t");
    let long: String = "x".repeat(150);
    s.add_message(Role::User, &long);
    let preview = s.preview.clone().unwrap();
    assert_eq!(preview.chars().count(), 103);
    assert!(preview.starts_with(&"x".repeat(100)));
    assert!(preview.ends_with("..."));
}

#[test]
fn preview_at_exactly_the_limit_is_kept_whole() {
    let mut s = ChatSession::new("t");
    let exact: String = "y".repeat(100);
    s.add_message(Role::User, &exact);
    assert_eq!(s.preview.as_deref(), Some(exact.as_str()));
}

#[test]
fn set_title_and_archive_flags() {
    let mut s = ChatSession::new("before");
    s.set_title("after");
    assert_eq!(s.title, "after");
    s.archive();
    assert!(s.is_archived);
    s.unarchive();
    assert!(!s.is_archived);
}

#[test]
fn default_settings_match_the_documented_values() {
    let settings = AppSettings::default();
    assert!(settings.openai_api_key.is_none());
    assert_eq!(settings.theme, Theme::Dark);
    assert_eq!(settings.model, "gpt-4");
    assert_eq!(settings.temperature_milli, 700);
    assert!(settings.system_prompt.is_none());
    assert!(!settings.sidebar_collapsed);
    assert!(settings.window_width.is_none());
    assert!(settings.window_height.is_none());
}

#[test]
fn default_state_is_empty() {
    let state = AppState::default();
    assert!(state.sessions.is_empty());
    assert!(state.active_session_id.is_none());
    assert_eq!(state.settings.model, "gpt-4");
}
