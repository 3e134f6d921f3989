//! Value types for conversation turns and sessions, plus application
//! settings and state.
//!
//! A [`Message`] is one turn of a conversation; a [`ChatSession`] is an
//! ordered list of turns with bookkeeping (title, timestamps, preview,
//! archive flag). Fresh identifiers and timestamps come from the outside
//! world through two trusted wrappers; everything else is verified.

use vstd::prelude::*;

verus! {

/// Who produced a message.
#[derive(Debug, Clone, PartialEq, Eq, Structural)]
pub enum Role {
    User,
    Assistant,
    System,
}

/// One turn of a conversation.
#[derive(Debug, Clone, PartialEq)]
pub struct Message {
    pub id: String,
    pub role: Role,
    pub content: String,
    pub timestamp: i64,
    /// Indicates if this message is still being streamed.
    pub is_streaming: bool,
}

/// Relies on `uuid::Uuid::new_v4` and its `Display` impl: a fresh random
/// version-4 UUID rendered in the hyphenated form, which is exactly 36
/// characters. The value is random, so nothing more is promised of it.
#[verifier::external_body]
pub(crate) fn fresh_id() -> (r: String)
    ensures
        r@.len() == 36,
{
    uuid::Uuid::new_v4().to_string()
}

/// Relies on `chrono::Utc::now` and `DateTime::timestamp`: the current
/// wall-clock time in whole seconds since the Unix epoch. The value depends
/// on the clock, so nothing is promised of it.
#[verifier::external_body]
pub(crate) fn now_timestamp() -> (r: i64) {
    chrono::Utc::now().timestamp()
}

impl Message {
    /// A finished (non-streaming) message with the given role and content.
    pub fn new(role: Role, content: &str) -> (r: Message)
        ensures
            r.role == role,
            r.content@ == content@,
            r.is_streaming == false,
            r.id@.len() == 36,
    {
        Message {
            id: fresh_id(),
            role,
            content: content.to_owned(),
            timestamp: now_timestamp(),
            is_streaming: false,
        }
    }

    /// A message that starts empty and in streaming mode; chunks are appended
    /// as they arrive and streaming is marked complete at the terminal event.
    pub fn new_streaming(role: Role) -> (r: Message)
        ensures
            r.role == role,
            r.content@ == Seq::<char>::empty(),
            r.is_streaming == true,
            r.id@.len() == 36,
    {
        Message {
            id: fresh_id(),
            role,
            content: String::new(),
            timestamp: now_timestamp(),
            is_streaming: true,
        }
    }

    /// Appends a streamed content fragment; a chunk is an increment to
    /// append, never a replacement.
    pub fn append_content(&mut self, content: &str)
        ensures
            final(self).content@ == old(self).content@ + content@,
            final(self).id == old(self).id,
            final(self).role == old(self).role,
            final(self).timestamp == old(self).timestamp,
            final(self).is_streaming == old(self).is_streaming,
    {
        self.content.append(content);
    }

    /// Marks streaming as complete.
    pub fn complete_streaming(&mut self)
        ensures
            final(self).is_streaming == false,
            final(self).id == old(self).id,
            final(self).role == old(self).role,
            final(self).content == old(self).content,
            final(self).timestamp == old(self).timestamp,
    {
        self.is_streaming = false;
    }
}

/// A conversation with its bookkeeping.
#[derive(Debug, Clone, PartialEq)]
pub struct ChatSession {
    pub id: String,
    pub title: String,
    pub messages: Vec<Message>,
    pub created_at: i64,
    pub updated_at: i64,
    /// Preview text for the sidebar: the first user message, shortened.
    pub preview: Option<String>,
    /// Whether this session is archived.
    pub is_archived: bool,
}

/// How many characters of the first user message the preview keeps.
pub const PREVIEW_CHARS: usize = 100;

/// The index of the first user message, if any.
pub open spec fn is_first_user_index(ms: Seq<Message>, i: int) -> bool {
    &&& 0 <= i < ms.len()
    &&& ms[i].role == Role::User
    &&& forall|j: int| 0 <= j < i ==> ms[j].role != Role::User
}

/// Whether some message in the sequence was sent by the user.
pub open spec fn has_user_message(ms: Seq<Message>) -> bool {
    exists|i: int| 0 <= i < ms.len() && ms[i].role == Role::User
}

/// The preview text derived from a user message's content: the whole content
/// when it is short, else its first `PREVIEW_CHARS` characters followed by an
/// ellipsis.
pub open spec fn preview_text(content: Seq<char>) -> Seq<char> {
    if content.len() <= PREVIEW_CHARS {
        content
    } else {
        content.take(PREVIEW_CHARS as int) + "..."@
    }
}

impl ChatSession {
    /// A fresh, empty, unarchived session with the given title.
    pub fn new(title: &str) -> (r: ChatSession)
        ensures
            r.title@ == title@,
            r.messages@ == Seq::<Message>::empty(),
            r.created_at == r.updated_at,
            r.preview is None,
            r.is_archived == false,
            r.id@.len() == 36,
    {
        let now: i64 = now_timestamp();
        ChatSession {
            id: fresh_id(),
            title: title.to_owned(),
            messages: Vec::new(),
            created_at: now,
            updated_at: now,
            preview: None,
            is_archived: false,
        }
    }

    /// Appends a new message with the given role and content, refreshes the
    /// update timestamp, and recomputes the preview.
    pub fn add_message(&mut self, role: Role, content: &str)
        ensures
            final(self).messages@.len() == old(self).messages@.len() + 1,
            final(self).messages@.last().role == role,
            final(self).messages@.last().content@ == content@,
            final(self).messages@.last().is_streaming == false,
            forall|i: int|
                0 <= i < old(self).messages@.len() ==> final(self).messages@[i] == old(
                    self,
                ).messages@[i],
            final(self).id == old(self).id,
            final(self).title == old(self).title,
            final(self).created_at == old(self).created_at,
            final(self).is_archived == old(self).is_archived,
            preview_holds(old(self).preview, final(self).messages@, final(self).preview),
    {
        let message = Message::new(role, content);
        self.messages.push(message);
        self.updated_at = now_timestamp();
        self.update_preview();
    }

    /// Recomputes the sidebar preview: once a preview exists it is kept;
    /// otherwise it becomes a shortening of the first user message, measured
    /// in characters, or stays absent when no user message exists yet.
    pub fn update_preview(&mut self)
        ensures
            final(self).id == old(self).id,
            final(self).title == old(self).title,
            final(self).messages == old(self).messages,
            final(self).created_at == old(self).created_at,
            final(self).updated_at == old(self).updated_at,
            final(self).is_archived == old(self).is_archived,
            preview_holds(old(self).preview, old(self).messages@, final(self).preview),
    {
        if self.preview.is_none() {
            let mut i: usize = 0;
            let n: usize = self.messages.len();
            while i < n
                invariant
                    0 <= i <= n,
                    n == self.messages@.len(),
                    *self == *old(self),
                    self.preview is None,
                    forall|j: int| 0 <= j < i ==> self.messages@[j].role != Role::User,
                decreases n - i,
            {
                if self.messages[i].role == Role::User {
                    let ghost first: int = i as int;
                    let content: &String = &self.messages[i].content;
                    let len: usize = content.as_str().unicode_len();
                    if len <= PREVIEW_CHARS {
                        self.preview = Some(content.clone());
                    } else {
                        let head = content.as_str().substring_char(0, PREVIEW_CHARS);
                        self.preview = Some(head.to_owned().concat("..."));
                        proof {
                            assert(old(self).messages@[first].content@.take(PREVIEW_CHARS as int)
                                == old(self).messages@[first].content@.subrange(
                                0,
                                PREVIEW_CHARS as int,
                            ));
                        }
                    }
                    proof {
                        assert(is_first_user_index(old(self).messages@, first));
                        assert(self.preview.unwrap()@ == preview_text(
                            old(self).messages@[first].content@,
                        ));
                    }
                    return ;
                }
                i += 1;
            }
        }
    }

    /// Renames the session and refreshes the update timestamp.
    pub fn set_title(&mut self, title: &str)
        ensures
            final(self).title@ == title@,
            final(self).id == old(self).id,
            final(self).messages == old(self).messages,
            final(self).created_at == old(self).created_at,
            final(self).preview == old(self).preview,
            final(self).is_archived == old(self).is_archived,
    {
        self.title = title.to_owned();
        self.updated_at = now_timestamp();
    }

    /// Marks the session archived and refreshes the update timestamp.
    pub fn archive(&mut self)
        ensures
            final(self).is_archived == true,
            final(self).id == old(self).id,
            final(self).title == old(self).title,
            final(self).messages == old(self).messages,
            final(self).created_at == old(self).created_at,
            final(self).preview == old(self).preview,
    {
        self.is_archived = true;
        self.updated_at = now_timestamp();
    }

    /// Clears the archived mark and refreshes the update timestamp.
    pub fn unarchive(&mut self)
        ensures
            final(self).is_archived == false,
            final(self).id == old(self).id,
            final(self).title == old(self).title,
            final(self).messages == old(self).messages,
            final(self).created_at == old(self).created_at,
            final(self).preview == old(self).preview,
    {
        self.is_archived = false;
        self.updated_at = now_timestamp();
    }
}

/// What `update_preview` promises: an existing preview is kept; otherwise the
/// first user message, shortened, becomes the preview; with no user message
/// there is none.
pub open spec fn preview_holds(
    old_preview: Option<String>,
    ms: Seq<Message>,
    new_preview: Option<String>,
) -> bool {
    if old_preview is Some {
        new_preview == old_preview
    } else if has_user_message(ms) {
        new_preview is Some && exists|i: int|
            is_first_user_index(ms, i) && new_preview.unwrap()@ == preview_text(ms[i].content@)
    } else {
        new_preview is None
    }
}

/// User-facing configuration.
#[derive(Debug, Clone, PartialEq)]
pub struct AppSettings {
    pub openai_api_key: Option<String>,
    pub theme: Theme,
    pub model: String,
    /// Sampling temperature in thousandths, so 700 stands for 0.700.
    pub temperature_milli: u32,
    pub system_prompt: Option<String>,
    /// Sidebar collapsed state.
    pub sidebar_collapsed: bool,
    /// Window dimensions.
    pub window_width: Option<u32>,
    pub window_height: Option<u32>,
}

/// Colour scheme choice.
#[derive(Debug, Clone, PartialEq, Eq, Structural)]
pub enum Theme {
    Light,
    Dark,
    Auto,
}

/// The out-of-the-box configuration: dark theme, the default model, a
/// temperature of 0.700, and no overrides.
pub open spec fn is_default_settings(s: AppSettings) -> bool {
    &&& s.openai_api_key is None
    &&& s.theme == Theme::Dark
    &&& s.model@ == "gpt-4"@
    &&& s.temperature_milli == 700
    &&& s.system_prompt is None
    &&& s.sidebar_collapsed == false
    &&& s.window_width is None
    &&& s.window_height is None
}

impl Default for AppSettings {
    /// Dark theme, the default model, a temperature of 0.700, and no
    /// overrides.
    fn default() -> (r: AppSettings)
        ensures
            is_default_settings(r),
    {
        AppSettings {
            openai_api_key: None,
            theme: Theme::Dark,
            model: String::from_str("gpt-4"),
            temperature_milli: 700,
            system_prompt: None,
            sidebar_collapsed: false,
            window_width: None,
            window_height: None,
        }
    }
}

/// Application state container.
#[derive(Debug, Clone)]
pub struct AppState {
    pub sessions: Vec<ChatSession>,
    pub active_session_id: Option<String>,
    pub settings: AppSettings,
}

impl Default for AppState {
    /// No sessions, no active session, default settings.
    fn default() -> (r: AppState)
        ensures
            r.sessions@ == Seq::<ChatSession>::empty(),
            r.active_session_id is None,
            is_default_settings(r.settings),
    {
        AppState { sessions: Vec::new(), active_session_id: None, settings: AppSettings::default() }
    }
}

} // verus!
