//! The chat-request dispatch model: requests, streamed events, cancellation,
//! and the per-dispatch streaming protocol.
//!
//! Every dispatched request produces a stream of [`ChatEvent`]s on a shared
//! output; events of one dispatch are recognised by their session id and
//! message id pair. The spec functions here give the protocol its meaning —
//! which events are terminal, what the per-dispatch projection of the shared
//! output is — and the lemmas prove the ordering guarantees: exactly one
//! terminal event per dispatch, and per-dispatch order preserved under
//! arbitrary interleaving on the shared output.

use vstd::prelude::*;

use crate::models::Message;

verus! {

/// An outgoing request: one conversation turn to run against the backend.
/// The session id and message id together identify the dispatch; the request
/// is immutable once submitted.
#[derive(Debug, Clone, PartialEq)]
pub struct ChatRequest {
    pub session_id: String,
    pub message_id: String,
    pub messages: Vec<Message>,
    pub model: String,
    /// Sampling temperature in thousandths, so 700 stands for 0.700.
    pub temperature_milli: u32,
    pub system_prompt: Option<String>,
}

/// A fragment of streamed response content, to be appended by the caller;
/// `is_final` marks the last chunk of a dispatch and nothing after it.
#[derive(Debug, Clone, PartialEq)]
pub struct ChatResponseChunk {
    pub session_id: String,
    pub message_id: String,
    pub content: String,
    pub is_final: bool,
}

/// A terminal error outcome for one dispatch; no further events follow it.
#[derive(Debug, Clone, PartialEq)]
pub struct ChatError {
    pub session_id: String,
    pub message_id: String,
    pub error: String,
}

/// One event on the shared output. Every dispatch ends with exactly one
/// terminal event: a final chunk, an error, or a cancellation notice.
#[derive(Debug, Clone, PartialEq)]
pub enum ChatEvent {
    ResponseChunk(ChatResponseChunk),
    Error(ChatError),
    Cancelled { session_id: String, message_id: String },
}

/// The session id carried by an event.
pub open spec fn event_session_id(e: ChatEvent) -> Seq<char> {
    match e {
        ChatEvent::ResponseChunk(c) => c.session_id@,
        ChatEvent::Error(err) => err.session_id@,
        ChatEvent::Cancelled { session_id, message_id } => session_id@,
    }
}

/// The message id carried by an event.
pub open spec fn event_message_id(e: ChatEvent) -> Seq<char> {
    match e {
        ChatEvent::ResponseChunk(c) => c.message_id@,
        ChatEvent::Error(err) => err.message_id@,
        ChatEvent::Cancelled { session_id, message_id } => message_id@,
    }
}

/// Whether an event ends its dispatch: a final chunk, an error, or a
/// cancellation notice.
pub open spec fn is_terminal_event(e: ChatEvent) -> bool {
    match e {
        ChatEvent::ResponseChunk(c) => c.is_final,
        ChatEvent::Error(_) => true,
        ChatEvent::Cancelled { .. } => true,
    }
}

/// Whether an event is a content chunk carrying the final mark.
pub open spec fn is_final_chunk(e: ChatEvent) -> bool {
    match e {
        ChatEvent::ResponseChunk(c) => c.is_final,
        _ => false,
    }
}

/// The content fragment carried by a chunk event.
pub open spec fn chunk_text(e: ChatEvent) -> Seq<char> {
    match e {
        ChatEvent::ResponseChunk(c) => c.content@,
        _ => Seq::<char>::empty(),
    }
}

/// The error description carried by an error event.
pub open spec fn error_text(e: ChatEvent) -> Seq<char> {
    match e {
        ChatEvent::Error(err) => err.error@,
        _ => Seq::<char>::empty(),
    }
}

/// Whether an event is attributable to the dispatch identified by the given
/// session id and message id pair.
pub open spec fn belongs_to(e: ChatEvent, sid: Seq<char>, mid: Seq<char>) -> bool {
    event_session_id(e) == sid && event_message_id(e) == mid
}

/// The subsequence of a shared output stream attributable to one dispatch,
/// in the order the caller observes it.
pub open spec fn events_for(s: Seq<ChatEvent>, sid: Seq<char>, mid: Seq<char>) -> Seq<ChatEvent> {
    s.filter(|e: ChatEvent| belongs_to(e, sid, mid))
}

/// Every event of the stream belongs to the given dispatch.
pub open spec fn all_belong_to(s: Seq<ChatEvent>, sid: Seq<char>, mid: Seq<char>) -> bool {
    forall|i: int| 0 <= i < s.len() ==> belongs_to(#[trigger] s[i], sid, mid)
}

/// No event of the stream belongs to the given dispatch.
pub open spec fn none_belong_to(s: Seq<ChatEvent>, sid: Seq<char>, mid: Seq<char>) -> bool {
    forall|i: int| 0 <= i < s.len() ==> !belongs_to(#[trigger] s[i], sid, mid)
}

/// A complete per-dispatch stream: non-empty, its last event terminal, and
/// nothing terminal before that.
pub open spec fn dispatch_complete(s: Seq<ChatEvent>) -> bool {
    &&& s.len() > 0
    &&& is_terminal_event(s.last())
    &&& forall|i: int| 0 <= i < s.len() - 1 ==> !is_terminal_event(#[trigger] s[i])
}

/// How many terminal events a stream holds.
pub open spec fn terminal_count(s: Seq<ChatEvent>) -> nat
    decreases s.len(),
{
    if s.len() == 0 {
        0
    } else {
        terminal_count(s.drop_last()) + if is_terminal_event(s.last()) {
            1nat
        } else {
            0nat
        }
    }
}

/// A stream with no terminal event holds zero of them.
proof fn lemma_terminal_count_zero(s: Seq<ChatEvent>)
    requires
        forall|i: int| 0 <= i < s.len() ==> !is_terminal_event(#[trigger] s[i]),
    ensures
        terminal_count(s) == 0,
    decreases s.len(),
{
    if s.len() > 0 {
        assert(forall|i: int|
            0 <= i < s.drop_last().len() ==> !is_terminal_event(#[trigger] s.drop_last()[i]));
        lemma_terminal_count_zero(s.drop_last());
    }
}

/// A complete per-dispatch stream contains exactly one terminal event, and
/// it is the last event of the stream.
pub proof fn lemma_exactly_one_terminal(s: Seq<ChatEvent>)
    requires
        dispatch_complete(s),
    ensures
        terminal_count(s) == 1,
        is_terminal_event(s.last()),
        forall|i: int| 0 <= i < s.len() && is_terminal_event(#[trigger] s[i]) ==> i == s.len() - 1,
{
    assert(forall|i: int|
        0 <= i < s.drop_last().len() ==> !is_terminal_event(#[trigger] s.drop_last()[i]));
    lemma_terminal_count_zero(s.drop_last());
}

/// A shared stream interleaves two per-dispatch streams when it merges them
/// while keeping each one's internal order.
pub open spec fn is_interleaving(s: Seq<ChatEvent>, a: Seq<ChatEvent>, b: Seq<ChatEvent>) -> bool
    decreases s.len(),
{
    if s.len() == 0 {
        a.len() == 0 && b.len() == 0
    } else {
        ||| (a.len() > 0 && a.last() == s.last() && is_interleaving(s.drop_last(), a.drop_last(), b))
        ||| (b.len() > 0 && b.last() == s.last() && is_interleaving(s.drop_last(), a, b.drop_last()))
    }
}

/// Projecting a stream onto a dispatch that every event belongs to gives the
/// stream back unchanged.
pub proof fn lemma_projection_of_own(s: Seq<ChatEvent>, sid: Seq<char>, mid: Seq<char>)
    requires
        all_belong_to(s, sid, mid),
    ensures
        events_for(s, sid, mid) == s,
    decreases s.len(),
{
    reveal(Seq::filter);
    if s.len() > 0 {
        assert(forall|i: int|
            0 <= i < s.drop_last().len() ==> belongs_to(#[trigger] s.drop_last()[i], sid, mid));
        lemma_projection_of_own(s.drop_last(), sid, mid);
        assert(events_for(s, sid, mid) =~= s);
    } else {
        assert(events_for(s, sid, mid) =~= s);
    }
}

/// Projecting a stream onto a dispatch that none of its events belongs to
/// gives the empty stream.
pub proof fn lemma_projection_of_other(s: Seq<ChatEvent>, sid: Seq<char>, mid: Seq<char>)
    requires
        none_belong_to(s, sid, mid),
    ensures
        events_for(s, sid, mid) == Seq::<ChatEvent>::empty(),
    decreases s.len(),
{
    reveal(Seq::filter);
    if s.len() > 0 {
        assert(forall|i: int|
            0 <= i < s.drop_last().len() ==> !belongs_to(#[trigger] s.drop_last()[i], sid, mid));
        lemma_projection_of_other(s.drop_last(), sid, mid);
        assert(events_for(s, sid, mid) =~= Seq::<ChatEvent>::empty());
    } else {
        assert(events_for(s, sid, mid) =~= Seq::<ChatEvent>::empty());
    }
}

/// Per-dispatch order survives interleaving: however the shared output
/// interleaves the streams of two dispatches with distinct session/message
/// id pairs, projecting it onto either pair recovers that dispatch's own
/// stream, exactly and in order.
pub proof fn lemma_interleaving_preserves_order(
    s: Seq<ChatEvent>,
    a: Seq<ChatEvent>,
    b: Seq<ChatEvent>,
    sid_a: Seq<char>,
    mid_a: Seq<char>,
    sid_b: Seq<char>,
    mid_b: Seq<char>,
)
    requires
        is_interleaving(s, a, b),
        all_belong_to(a, sid_a, mid_a),
        all_belong_to(b, sid_b, mid_b),
        !(sid_a == sid_b && mid_a == mid_b),
    ensures
        events_for(s, sid_a, mid_a) == a,
        events_for(s, sid_b, mid_b) == b,
    decreases s.len(),
{
    reveal(Seq::filter);
    if s.len() == 0 {
        assert(events_for(s, sid_a, mid_a) =~= a);
        assert(events_for(s, sid_b, mid_b) =~= b);
    } else if a.len() > 0 && a.last() == s.last() && is_interleaving(
        s.drop_last(),
        a.drop_last(),
        b,
    ) {
        assert(forall|i: int|
            0 <= i < a.drop_last().len() ==> belongs_to(
                #[trigger] a.drop_last()[i],
                sid_a,
                mid_a,
            ));
        lemma_interleaving_preserves_order(s.drop_last(), a.drop_last(), b, sid_a, mid_a, sid_b, mid_b);
        assert(belongs_to(s.last(), sid_a, mid_a));
        assert(!belongs_to(s.last(), sid_b, mid_b));
        assert(events_for(s, sid_a, mid_a) =~= a);
        assert(events_for(s, sid_b, mid_b) =~= b);
    } else {
        assert(b.len() > 0 && b.last() == s.last() && is_interleaving(
            s.drop_last(),
            a,
            b.drop_last(),
        ));
        assert(forall|i: int|
            0 <= i < b.drop_last().len() ==> belongs_to(
                #[trigger] b.drop_last()[i],
                sid_b,
                mid_b,
            ));
        lemma_interleaving_preserves_order(s.drop_last(), a, b.drop_last(), sid_a, mid_a, sid_b, mid_b);
        assert(belongs_to(s.last(), sid_b, mid_b));
        assert(!belongs_to(s.last(), sid_a, mid_a));
        assert(events_for(s, sid_a, mid_a) =~= a);
        assert(events_for(s, sid_b, mid_b) =~= b);
    }
}

/// A backend run that emitted `k` non-final chunks and then a final chunk,
/// all for one dispatch.
pub open spec fn chunks_then_final(s: Seq<ChatEvent>, sid: Seq<char>, mid: Seq<char>, k: nat) -> bool {
    &&& s.len() == k + 1
    &&& all_belong_to(s, sid, mid)
    &&& forall|i: int| 0 <= i < s.len() ==> #[trigger] s[i] is ResponseChunk
    &&& forall|i: int| 0 <= i < k ==> !is_terminal_event(#[trigger] s[i])
    &&& is_final_chunk(s.last())
}

/// A backend run that emitted `k` non-final chunks and then observed
/// cancellation, ending with a cancellation notice instead of completing.
pub open spec fn chunks_then_cancelled(
    s: Seq<ChatEvent>,
    sid: Seq<char>,
    mid: Seq<char>,
    k: nat,
) -> bool {
    &&& s.len() == k + 1
    &&& all_belong_to(s, sid, mid)
    &&& forall|i: int| 0 <= i < k ==> #[trigger] s[i] is ResponseChunk && !is_terminal_event(s[i])
    &&& s.last() is Cancelled
}

/// What the caller observes of a backend that emitted `k` non-final chunks
/// and then a final chunk: exactly `k + 1` chunk events — no error, no
/// cancellation — with only the last marked final.
pub proof fn lemma_full_stream_observed(s: Seq<ChatEvent>, sid: Seq<char>, mid: Seq<char>, k: nat)
    requires
        chunks_then_final(s, sid, mid, k),
    ensures
        dispatch_complete(s),
        terminal_count(s) == 1,
        s.len() == k + 1,
        forall|i: int|
            0 <= i < s.len() ==> #[trigger] s[i] is ResponseChunk && !(s[i] is Error) && !(s[i]
                is Cancelled),
        forall|i: int| 0 <= i < s.len() - 1 ==> !is_final_chunk(#[trigger] s[i]),
        is_final_chunk(s.last()),
{
    assert(is_terminal_event(s.last()));
    lemma_exactly_one_terminal(s);
    assert(forall|i: int| 0 <= i < s.len() - 1 ==> !is_final_chunk(#[trigger] s[i]));
}

/// What the caller observes of a cancelled dispatch: a stream that ends with
/// the cancellation notice as its only terminal event, and that contains no
/// final chunk at all.
pub proof fn lemma_cancelled_stream_observed(
    s: Seq<ChatEvent>,
    sid: Seq<char>,
    mid: Seq<char>,
    k: nat,
)
    requires
        chunks_then_cancelled(s, sid, mid, k),
    ensures
        dispatch_complete(s),
        terminal_count(s) == 1,
        s.last() is Cancelled,
        forall|i: int| 0 <= i < s.len() ==> !is_final_chunk(#[trigger] s[i]),
{
    assert(is_terminal_event(s.last()));
    lemma_exactly_one_terminal(s);
    assert(forall|i: int| 0 <= i < s.len() ==> !is_final_chunk(#[trigger] s[i])) by {
        assert(forall|i: int|
            0 <= i < s.len() - 1 ==> #[trigger] s[i] is ResponseChunk && !is_terminal_event(s[i]));
        assert(!is_final_chunk(s.last()));
    }
}

impl ChatEvent {
    /// Whether this event ends its dispatch; the caller's drain loop uses it
    /// to know when a dispatch is over.
    pub fn is_terminal(&self) -> (r: bool)
        ensures
            r == is_terminal_event(*self),
    {
        match self {
            ChatEvent::ResponseChunk(c) => c.is_final,
            ChatEvent::Error(_) => true,
            ChatEvent::Cancelled { .. } => true,
        }
    }
}

/// The backend contract: the polymorphic capability any conversational
/// engine must implement to serve dispatches. One call of
/// [`Backend::next_event`] is one step of the engine's emission loop: given
/// the request and whether the caller has requested cancellation, the engine
/// decides the next event to put on the shared output, or reports the
/// dispatch over. The obligations are the streaming protocol itself: every
/// event belongs to the request's dispatch, non-terminal events are content
/// chunks, the stream ends with exactly one terminal event, and an observed
/// cancellation ends it with a cancellation notice instead of more chunks.
/// Engines whose steps await outside work run behind an asynchronous
/// adapter that feeds this contract.
pub trait Backend: Sized {
    /// The engine's internal consistency.
    spec fn wf(&self) -> bool;

    /// Whether the engine has emitted its terminal event for the current
    /// dispatch.
    spec fn finished(&self) -> bool;

    /// The next event of the dispatch, or nothing once it has ended.
    fn next_event(&mut self, request: &ChatRequest, cancel_requested: bool) -> (e: Option<
        ChatEvent,
    >)
        requires
            old(self).wf(),
        ensures
            final(self).wf(),
            (e is Some <==> !old(self).finished()),
            e is None ==> final(self).finished(),
            e is Some ==> belongs_to(e.unwrap(), request.session_id@, request.message_id@),
            e is Some ==> (is_terminal_event(e.unwrap()) <==> final(self).finished()),
            e is Some && !is_terminal_event(e.unwrap()) ==> e.unwrap() is ResponseChunk,
            !old(self).finished() && cancel_requested ==> e.unwrap() is Cancelled,
    ;
}

/// The single `Error` event the pipeline synthesizes when the backend
/// returns a failure instead of streaming events. It carries the failed
/// request's session id and message id, and a description that is never
/// empty: an empty failure description is replaced by a generic one.
pub fn failure_event(request: &ChatRequest, description: &str) -> (e: ChatEvent)
    ensures
        e is Error,
        event_session_id(e) == request.session_id@,
        event_message_id(e) == request.message_id@,
        error_text(e).len() > 0,
        description@.len() > 0 ==> error_text(e) == description@,
        description@.len() == 0 ==> error_text(e) == "backend failure"@,
{
    let error: String = if description.is_empty() {
        proof {
            reveal_strlit("backend failure");
        }
        String::from_str("backend failure")
    } else {
        description.to_owned()
    };
    ChatEvent::Error(
        ChatError {
            session_id: request.session_id.clone(),
            message_id: request.message_id.clone(),
            error,
        },
    )
}

#[verifier::external_type_specification]
#[verifier::external_body]
#[verifier::reject_recursive_types(T)]
pub struct ExSender<T>(tokio::sync::mpsc::Sender<T>);

/// The caller-held capability to request early termination of one dispatch:
/// the send end of that dispatch's private one-shot cancellation channel.
/// The dispatch's task polls the other end between emitted chunks.
pub struct CancellationHandle {
    tx: tokio::sync::mpsc::Sender<()>,
}

impl CancellationHandle {
    /// Wraps the send end of a dispatch's cancellation channel.
    pub fn new(tx: tokio::sync::mpsc::Sender<()>) -> CancellationHandle {
        CancellationHandle { tx }
    }

    /// Requests cancellation of the associated dispatch. Relies on tokio's
    /// `mpsc::Sender::try_send`: it never blocks and never panics, and it
    /// fails only when the channel is full (a notice is already pending) or
    /// closed (the dispatch already reached its terminal event) — both
    /// harmless no-ops, so cancelling never raises an error to the caller.
    /// Returns whether the notice was delivered; the value depends on the
    /// state of the dispatch task, so nothing is promised of it.
    #[verifier::external_body]
    pub fn cancel(&self) -> bool {
        self.tx.try_send(()).is_ok()
    }
}

} // verus!
