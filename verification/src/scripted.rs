//! A deterministic test backend: the second kind of engine the backend
//! contract supports, used to exercise the dispatch pipeline with a known
//! event stream.
//!
//! A [`ScriptedBackend`] emits a fixed number of content chunks — `"chunk 0 "`,
//! `"chunk 1 "`, and so on, the last one marked final — and observes the
//! cancellation signal between chunks: once cancellation is seen it emits a
//! cancellation notice instead of completing. It implements the backend
//! contract, [`crate::messaging::Backend`], so each decision is one call of
//! its `next_event`; the driver that paces the calls and forwards the events
//! to the shared output stays outside.

use vstd::prelude::*;

use crate::messaging::ChatEvent;
use crate::messaging::ChatRequest;
use crate::messaging::ChatResponseChunk;
use crate::messaging::Backend;
use crate::messaging::belongs_to;
use crate::messaging::chunk_text;
use crate::messaging::chunks_then_cancelled;
use crate::messaging::chunks_then_final;
use crate::messaging::event_message_id;
use crate::messaging::event_session_id;
use crate::messaging::is_final_chunk;
use crate::messaging::is_terminal_event;

verus! {

/// The character for one decimal digit.
pub open spec fn digit_char(d: nat) -> char {
    if d == 0 {
        '0'
    } else if d == 1 {
        '1'
    } else if d == 2 {
        '2'
    } else if d == 3 {
        '3'
    } else if d == 4 {
        '4'
    } else if d == 5 {
        '5'
    } else if d == 6 {
        '6'
    } else if d == 7 {
        '7'
    } else if d == 8 {
        '8'
    } else {
        '9'
    }
}

/// The decimal numeral of `n`, most significant digit first, no leading
/// zeros (except for the numeral of zero itself).
pub open spec fn dec_digits(n: nat) -> Seq<char>
    decreases n,
{
    if n < 10 {
        seq![digit_char(n)]
    } else {
        dec_digits(n / 10).push(digit_char(n % 10))
    }
}

/// The content of the scripted backend's chunk number `i`.
pub open spec fn chunk_content(i: nat) -> Seq<char> {
    "chunk "@ + dec_digits(i) + " "@
}

/// The numeral character for a single digit.
fn digit_str(d: u64) -> (r: &'static str)
    requires
        d < 10,
    ensures
        r@ == seq![digit_char(d as nat)],
{
    proof {
        reveal_strlit("0");
        reveal_strlit("1");
        reveal_strlit("2");
        reveal_strlit("3");
        reveal_strlit("4");
        reveal_strlit("5");
        reveal_strlit("6");
        reveal_strlit("7");
        reveal_strlit("8");
        reveal_strlit("9");
    }
    match d {
        0 => "0",
        1 => "1",
        2 => "2",
        3 => "3",
        4 => "4",
        5 => "5",
        6 => "6",
        7 => "7",
        8 => "8",
        _ => "9",
    }
}

/// Appends the decimal numeral of `n`.
fn push_dec(out: &mut String, n: u64)
    ensures
        final(out)@ == old(out)@ + dec_digits(n as nat),
    decreases n,
{
    if n < 10 {
        out.append(digit_str(n));
    } else {
        push_dec(out, n / 10);
        out.append(digit_str(n % 10));
        proof {
            assert(final(out)@ =~= old(out)@ + dec_digits(n as nat));
        }
    }
}

/// The content of chunk number `i`, as the backend emits it.
pub fn chunk_content_string(i: u64) -> (r: String)
    ensures
        r@ == chunk_content(i as nat),
{
    let mut s = String::from_str("chunk ");
    push_dec(&mut s, i);
    s.append(" ");
    proof {
        assert(s@ =~= chunk_content(i as nat));
    }
    s
}

/// What one scripted chunk event looks like: chunk number `i` of a run of
/// `total`, attributed to the given dispatch, final exactly on the last.
pub open spec fn is_scripted_chunk(
    e: ChatEvent,
    sid: Seq<char>,
    mid: Seq<char>,
    i: nat,
    total: nat,
) -> bool {
    &&& e is ResponseChunk
    &&& event_session_id(e) == sid
    &&& event_message_id(e) == mid
    &&& chunk_text(e) == chunk_content(i)
    &&& (is_final_chunk(e) <==> i + 1 == total)
}

/// A full, uncancelled scripted run: `total` chunks in order.
pub open spec fn is_scripted_run(
    s: Seq<ChatEvent>,
    sid: Seq<char>,
    mid: Seq<char>,
    total: nat,
) -> bool {
    &&& s.len() == total
    &&& forall|i: int|
        0 <= i < s.len() ==> is_scripted_chunk(#[trigger] s[i], sid, mid, i as nat, total)
}

/// A full scripted run is a well-formed dispatch stream: `total - 1`
/// non-final chunks followed by one final chunk.
pub proof fn lemma_scripted_run_complete(s: Seq<ChatEvent>, sid: Seq<char>, mid: Seq<char>, total: nat)
    requires
        is_scripted_run(s, sid, mid, total),
        total >= 1,
    ensures
        chunks_then_final(s, sid, mid, (total - 1) as nat),
{
    assert(forall|i: int| 0 <= i < s.len() ==> belongs_to(#[trigger] s[i], sid, mid));
    assert(forall|i: int|
        0 <= i < total - 1 ==> !is_terminal_event(#[trigger] s[i]));
    assert(is_final_chunk(s.last()));
}

/// The deterministic test backend's state: how far its fixed script has
/// progressed.
pub struct ScriptedBackend {
    total_chunks: usize,
    next_index: usize,
    done: bool,
}

impl ScriptedBackend {
    /// How many chunks a full run of this backend emits.
    pub closed spec fn total(self) -> nat {
        self.total_chunks as nat
    }

    /// How many chunks it has emitted so far.
    pub closed spec fn emitted(self) -> nat {
        self.next_index as nat
    }

    /// A backend scripted to emit `total_chunks` chunks, the last final.
    pub fn new(total_chunks: usize) -> (r: ScriptedBackend)
        requires
            total_chunks >= 1,
        ensures
            r.wf(),
            r.total() == total_chunks,
            r.emitted() == 0,
            !r.finished(),
    {
        ScriptedBackend { total_chunks, next_index: 0, done: false }
    }
}

impl Backend for ScriptedBackend {
    /// A script of at least one chunk, progress within bounds, and the
    /// script not exhausted before the terminal event.
    closed spec fn wf(&self) -> bool {
        &&& self.total_chunks >= 1
        &&& self.next_index <= self.total_chunks
        &&& (!self.done ==> self.next_index < self.total_chunks)
    }

    closed spec fn finished(&self) -> bool {
        self.done
    }

    /// One decision of the emission loop. Beyond the backend contract, the
    /// scripted engine pins the events down exactly: with the cancellation
    /// signal raised it emits the cancellation notice without advancing the
    /// script; otherwise it emits chunk number `emitted()` of the script,
    /// marking the last one final.
    fn next_event(&mut self, request: &ChatRequest, cancel_requested: bool) -> (e: Option<
        ChatEvent,
    >)
        ensures
            final(self).total() == old(self).total(),
            old(self).finished() ==> *final(self) == *old(self),
            !old(self).finished() && cancel_requested ==> {
                &&& e is Some
                &&& e.unwrap() is Cancelled
                &&& belongs_to(e.unwrap(), request.session_id@, request.message_id@)
                &&& final(self).finished()
                &&& final(self).emitted() == old(self).emitted()
            },
            !old(self).finished() && !cancel_requested ==> {
                &&& e is Some
                &&& is_scripted_chunk(
                    e.unwrap(),
                    request.session_id@,
                    request.message_id@,
                    old(self).emitted(),
                    old(self).total(),
                )
                &&& final(self).emitted() == old(self).emitted() + 1
                &&& (final(self).finished() <==> old(self).emitted() + 1 == old(self).total())
            },
    {
        if self.done {
            return None;
        }
        if cancel_requested {
            self.done = true;
            return Some(
                ChatEvent::Cancelled {
                    session_id: request.session_id.clone(),
                    message_id: request.message_id.clone(),
                },
            );
        }
        let i: usize = self.next_index;
        let is_final = i + 1 == self.total_chunks;
        let content = chunk_content_string(i as u64);
        self.next_index = i + 1;
        if is_final {
            self.done = true;
        }
        Some(
            ChatEvent::ResponseChunk(
                ChatResponseChunk {
                    session_id: request.session_id.clone(),
                    message_id: request.message_id.clone(),
                    content,
                    is_final,
                },
            ),
        )
    }
}

/// The event sequence of one full, uncancelled run: what a dispatch forwards
/// to the shared output when nobody cancels — `total_chunks - 1` non-final
/// chunks and then the final one.
pub fn run_uncancelled(request: &ChatRequest, total_chunks: usize) -> (r: Vec<ChatEvent>)
    requires
        total_chunks >= 1,
    ensures
        is_scripted_run(r@, request.session_id@, request.message_id@, total_chunks as nat),
        chunks_then_final(r@, request.session_id@, request.message_id@, (total_chunks - 1) as nat),
{
    let mut backend = ScriptedBackend::new(total_chunks);
    let mut out: Vec<ChatEvent> = Vec::new();
    let mut i: usize = 0;
    while i < total_chunks
        invariant
            0 <= i <= total_chunks,
            total_chunks >= 1,
            backend.wf(),
            backend.total() == total_chunks,
            backend.emitted() == i,
            (backend.finished() <==> i == total_chunks),
            out@.len() == i,
            forall|j: int|
                0 <= j < i ==> is_scripted_chunk(
                    #[trigger] out@[j],
                    request.session_id@,
                    request.message_id@,
                    j as nat,
                    total_chunks as nat,
                ),
        decreases total_chunks - i,
    {
        let e = backend.next_event(request, false);
        out.push(e.unwrap());
        i += 1;
    }
    proof {
        lemma_scripted_run_complete(
            out@,
            request.session_id@,
            request.message_id@,
            total_chunks as nat,
        );
    }
    out
}

/// The event sequence of a run cancelled after `k` chunks: the `k` chunks
/// that were already out, then the cancellation notice as the terminal
/// event, and in particular never a final chunk.
pub fn run_cancelled_after(request: &ChatRequest, total_chunks: usize, k: usize) -> (r: Vec<
    ChatEvent,
>)
    requires
        total_chunks >= 1,
        k < total_chunks,
    ensures
        chunks_then_cancelled(r@, request.session_id@, request.message_id@, k as nat),
{
    let mut backend = ScriptedBackend::new(total_chunks);
    let mut out: Vec<ChatEvent> = Vec::new();
    let mut i: usize = 0;
    while i < k
        invariant
            0 <= i <= k,
            k < total_chunks,
            backend.wf(),
            backend.total() == total_chunks,
            backend.emitted() == i,
            !backend.finished(),
            out@.len() == i,
            forall|j: int|
                0 <= j < i ==> is_scripted_chunk(
                    #[trigger] out@[j],
                    request.session_id@,
                    request.message_id@,
                    j as nat,
                    total_chunks as nat,
                ),
        decreases k - i,
    {
        let e = backend.next_event(request, false);
        out.push(e.unwrap());
        i += 1;
    }
    let e = backend.next_event(request, true);
    out.push(e.unwrap());
    proof {
        assert(forall|j: int|
            0 <= j < k ==> #[trigger] out@[j] is ResponseChunk && !is_terminal_event(out@[j]));
        assert(belongs_to(out@.last(), request.session_id@, request.message_id@));
    }
    out
}

} // verus!
