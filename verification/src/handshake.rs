//! The handshake call: every message that comes in is answered by one
//! message, the same text behind the tag of whoever answers.

use crate::text::string_views;
use vstd::prelude::*;
use vstd::string::*;

verus! {

/// Who answers a handshake.
#[derive(Debug, Clone, Copy, PartialEq, Eq, Structural)]
pub enum Responder {
    /// The content server itself.
    ContentServer,
    /// The broker, standing in front of the content server.
    Broker,
}

/// The tag that marks the answers of `responder`.
pub open spec fn tag_text(responder: Responder) -> Seq<char> {
    match responder {
        Responder::ContentServer => "Echo: "@,
        Responder::Broker => "Agent Proxy: "@,
    }
}

/// The answer of `responder` to `message`.
pub open spec fn reply_text(responder: Responder, message: Seq<char>) -> Seq<char> {
    tag_text(responder) + message
}

/// The number of messages at the head of `items`, counted from `from`, that
/// come before the first failure.
pub open spec fn served_until(items: Seq<Result<String, String>>, from: int) -> int
    decreases items.len() - from,
{
    if 0 <= from < items.len() && items[from] is Ok {
        served_until(items, from + 1)
    } else {
        from
    }
}

/// The answers to a stream of inbound items: one for each message, in the
/// order of arrival, up to the end of the stream or its first failure.
pub open spec fn replies(responder: Responder, items: Seq<Result<String, String>>) -> Seq<
    Seq<char>,
> {
    Seq::new(
        served_until(items, 0) as nat,
        |i: int| reply_text(responder, items[i]->Ok_0@),
    )
}

/// `served_until` stops inside the stream, at a failure or at the end, and
/// everything before it is a message.
pub proof fn lemma_served_until(items: Seq<Result<String, String>>, from: int)
    requires
        0 <= from <= items.len(),
    ensures
        from <= served_until(items, from) <= items.len(),
        served_until(items, from) < items.len() ==> items[served_until(items, from)] is Err,
        forall|k: int| from <= k < served_until(items, from) ==> items[k] is Ok,
    decreases items.len() - from,
{
    if from < items.len() && items[from] is Ok {
        lemma_served_until(items, from + 1);
    }
}

/// A position reached over messages only, which holds a failure or is the
/// end, is where `served_until` stops.
pub proof fn lemma_served_until_found(items: Seq<Result<String, String>>, from: int, at: int)
    requires
        0 <= from <= at <= items.len(),
        forall|k: int| from <= k < at ==> items[k] is Ok,
        at < items.len() ==> items[at] is Err,
    ensures
        served_until(items, from) == at,
    decreases at - from,
{
    if from < at {
        lemma_served_until_found(items, from + 1, at);
    }
}

/// Answers are streamed: what has been answered after the first `k` items
/// stays as it is when more items arrive. Nothing is reordered, and no answer
/// waits for a later message.
pub proof fn lemma_replies_are_streamed(
    responder: Responder,
    items: Seq<Result<String, String>>,
    k: int,
)
    requires
        0 <= k <= items.len(),
    ensures
        replies(responder, items.take(k)).len() <= replies(responder, items).len(),
        replies(responder, items.take(k)) == replies(responder, items).take(
            replies(responder, items.take(k)).len() as int,
        ),
{
    let head = items.take(k);
    lemma_served_until(items, 0);
    lemma_served_until(head, 0);
    let n = served_until(items, 0);
    let m = served_until(head, 0);
    if m < n {
        // the head ran out before the stream's first failure
        if m < k {
            assert(head[m] is Err);
            assert(head[m] == items[m]);
            assert(items[m] is Ok);
        }
    } else if n < m {
        assert(head[n] is Ok);
        assert(head[n] == items[n]);
    }
    assert(m <= n);
    assert forall|i: int| 0 <= i < m implies replies(responder, head)[i] == replies(
        responder,
        items,
    )[i] by {
        assert(head[i] == items[i]);
    }
    assert(replies(responder, head) =~= replies(responder, items).take(m));
}

/// Every message is answered by exactly one message, in the order of
/// arrival, as long as the stream does not fail.
pub proof fn lemma_one_reply_per_message(responder: Responder, items: Seq<Result<String, String>>)
    requires
        forall|k: int| 0 <= k < items.len() ==> items[k] is Ok,
    ensures
        replies(responder, items).len() == items.len(),
        forall|k: int|
            0 <= k < items.len() ==> #[trigger] replies(responder, items)[k] == reply_text(
                responder,
                items[k]->Ok_0@,
            ),
{
    lemma_served_until_found(items, 0, items.len() as int);
}

/// The tag that marks the answers of `responder`.
pub fn response_tag(responder: Responder) -> (tag: &'static str)
    ensures
        tag@ == tag_text(responder),
{
    match responder {
        Responder::ContentServer => "Echo: ",
        Responder::Broker => "Agent Proxy: ",
    }
}

/// Answers one message.
pub fn echo_reply(responder: Responder, message: &str) -> (reply: String)
    ensures
        reply@ == reply_text(responder, message@),
{
    let mut reply = String::from_str(response_tag(responder));
    reply.append(message);
    reply
}

/// Answers a whole stream in the name of `responder`.
pub fn relay_handshake(responder: Responder, in_stream: &Vec<Result<String, String>>) -> (out:
    Vec<String>)
    ensures
        string_views(out@) == replies(responder, in_stream@),
{
    let mut out: Vec<String> = Vec::new();
    let n = in_stream.len();
    let mut i: usize = 0;
    while i < n
        invariant
            i <= n,
            n == in_stream@.len(),
            out@.len() == i,
            forall|k: int| 0 <= k < i ==> in_stream@[k] is Ok,
            forall|k: int|
                0 <= k < i ==> (#[trigger] out@[k])@ == reply_text(
                    responder,
                    in_stream@[k]->Ok_0@,
                ),
        decreases n - i,
    {
        match &in_stream[i] {
            Ok(message) => {
                out.push(echo_reply(responder, message.as_str()));
            },
            Err(_) => {
                proof {
                    lemma_served_until_found(in_stream@, 0, i as int);
                }
                assert(string_views(out@) =~= replies(responder, in_stream@));
                return out;
            },
        }
        i = i + 1;
    }
    proof {
        lemma_served_until_found(in_stream@, 0, n as int);
    }
    assert(string_views(out@) =~= replies(responder, in_stream@));
    out
}

/// Answers a whole stream as the content server does.
pub fn handle_handshake_logic(in_stream: &Vec<Result<String, String>>) -> (out: Vec<String>)
    ensures
        string_views(out@) == replies(Responder::ContentServer, in_stream@),
{
    relay_handshake(Responder::ContentServer, in_stream)
}

/// The content server's handshake service.
#[derive(Debug)]
pub struct MyEditorService {}

impl MyEditorService {
    /// Answers one handshake call.
    pub fn handshake(&self, in_stream: &Vec<Result<String, String>>) -> (out: Vec<String>)
        ensures
            string_views(out@) == replies(Responder::ContentServer, in_stream@),
    {
        handle_handshake_logic(in_stream)
    }
}

impl Default for MyEditorService {
    fn default() -> (service: Self)
        ensures
            service == (MyEditorService {  }),
    {
        MyEditorService {  }
    }
}

} // verus!
