//! The conversation orchestrator: the state machine that owns the
//! transcript, issues completion requests, fans tool calls out, folds tool
//! results back in, and resumes the conversation only once every
//! outstanding call of the turn has completed.
//!
//! The orchestrator performs no network work itself. Each step returns an
//! [`Effect`] telling the caller what to do — issue a completion request,
//! dispatch tool calls concurrently — and the caller feeds the outcome back
//! in through the next step. Because every decision is taken here, the
//! ordering guarantees of a turn are proved over these steps
//! ([`lemma_pending_convergence`], [`lemma_transcript_order`]).

use vstd::prelude::*;

use crate::models::{
    CompletionRequest, CompletionResponse, Content, Message, Role, Tool, ToolCall, ToolResult,
};

verus! {

/// The orchestrator's phase: ready for input, waiting for the one in-flight
/// completion request, or waiting for outstanding tool calls.
#[derive(Clone, Copy, Debug, PartialEq, Eq, Structural)]
pub enum Phase {
    Idle,
    AwaitingCompletion,
    AwaitingToolResults,
}

/// What the caller must do after a step.
#[derive(Debug)]
pub enum Effect {
    /// Nothing: the turn ended, the input was empty, or a result arrived
    /// that no longer belongs to the turn.
    Nothing,
    /// The conversation is busy: new input while a turn is active is
    /// rejected, never silently interleaved.
    Rejected,
    /// Issue exactly this completion request.
    Complete(CompletionRequest),
    /// Invoke every one of these tool calls, concurrently if desired.
    Dispatch(Vec<ToolCall>),
}

/// A message with its role forced to `Assistant`: however a provider labels
/// the segments of its reply, the transcript records them as the
/// assistant's.
pub open spec fn as_assistant(m: Message) -> Message {
    Message { role: Role::Assistant, ..m }
}

/// Every message of a reply, as the assistant messages the transcript gains.
pub open spec fn assistants_of(msgs: Seq<Message>) -> Seq<Message> {
    msgs.map_values(|m: Message| as_assistant(m))
}

/// The tool calls carried by one message.
pub open spec fn call_list(m: Message) -> Seq<ToolCall> {
    match m.tool_calls {
        Some(cs) => cs@,
        None => Seq::empty(),
    }
}

/// Every tool call carried by a sequence of messages, in message order.
pub open spec fn calls_of(msgs: Seq<Message>) -> Seq<ToolCall>
    decreases msgs.len(),
{
    if msgs.len() == 0 {
        Seq::empty()
    } else {
        calls_of(msgs.drop_last()) + call_list(msgs.last())
    }
}

/// The ids of a sequence of tool calls, as character sequences.
pub open spec fn view_ids_of(calls: Seq<ToolCall>) -> Seq<Seq<char>> {
    calls.map_values(|c: ToolCall| c.id@)
}

/// The views of a sequence of id strings.
pub open spec fn ids_view(ids: Seq<String>) -> Seq<Seq<char>> {
    ids.map_values(|s: String| s@)
}

/// No two of these ids are the same.
pub open spec fn distinct_seq(ids: Seq<Seq<char>>) -> bool {
    forall|i: int, j: int| 0 <= i < j < ids.len() ==> ids[i] != ids[j]
}

/// The pending set after one result for `id` arrives: the id leaves the
/// set if it is a member, and an unknown id changes nothing.
pub open spec fn remove_id(pending: Seq<Seq<char>>, id: Seq<char>) -> Seq<Seq<char>> {
    if pending.contains(id) {
        pending.remove(pending.index_of(id))
    } else {
        pending
    }
}

/// The text of every content block of a tool result, concatenated.
pub open spec fn spec_render(contents: Seq<Content>) -> Seq<char>
    decreases contents.len(),
{
    if contents.len() == 0 {
        Seq::empty()
    } else {
        spec_render(contents.drop_last()) + contents.last().spec_projected_text()
    }
}

/// The `tool` message that folds one result back into the transcript:
/// one `ToolResult` block answering `id`, error-tagged unless the call
/// succeeded, and carrying the back-reference `tool_call_id`.
pub open spec fn is_tool_answer(m: Message, id: Seq<char>, text: Seq<char>, failed: bool) -> bool {
    &&& m.role == Role::Tool
    &&& m.content@.len() == 1
    &&& (m.content@[0] matches Content::ToolResult { tool_use_id, content, is_error } && {
        &&& tool_use_id@ == id
        &&& content@ == text
        &&& is_error == if failed {
            Some(true)
        } else {
            None::<bool>
        }
    })
    &&& m.tool_calls is None
    &&& (m.tool_call_id matches Some(cid) && cid@ == id)
}

/// The views of the messages of a transcript.
pub open spec fn msg_views(msgs: Seq<Message>) -> Seq<crate::models::MessageView> {
    msgs.map_values(|m: Message| m@)
}

/// The conversation orchestrator. One instance owns one conversation's
/// transcript; nothing else ever mutates it.
#[derive(Debug)]
pub struct Orchestrator {
    /// The append-only transcript of the conversation.
    pub transcript: Vec<Message>,
    /// The phase of the current turn.
    pub phase: Phase,
    /// The ids of the tool calls of this turn that have not answered yet.
    pub pending: Vec<String>,
    /// The model completion requests are issued for.
    pub model: String,
    /// The published tool catalog advertised with every request.
    pub tools: Vec<Tool>,
}

impl Orchestrator {
    /// The orchestrator's invariant: the pending ids are distinct, the
    /// pending set is non-empty exactly while tool results are awaited, and
    /// every transcript message is well formed — in particular, a `tool`
    /// message always carries the id of the call it answers.
    pub open spec fn wf(&self) -> bool {
        &&& distinct_seq(ids_view(self.pending@))
        &&& (self.phase == Phase::AwaitingToolResults <==> self.pending@.len() > 0)
        &&& (forall|i: int|
            0 <= i < self.transcript@.len() ==> (#[trigger] self.transcript@[i]).wf())
    }

    /// A fresh conversation for `model`, advertising `tools`.
    pub fn new(model: String, tools: Vec<Tool>) -> (r: Self)
        ensures
            r.transcript@ == Seq::<Message>::empty(),
            r.phase == Phase::Idle,
            r.pending@ == Seq::<String>::empty(),
            r.model == model,
            r.tools@ == tools@,
            r.wf(),
    {
        let r = Orchestrator {
            transcript: Vec::new(),
            phase: Phase::Idle,
            pending: Vec::new(),
            model,
            tools,
        };
        proof {
            assert(ids_view(r.pending@) =~= Seq::<Seq<char>>::empty());
        }
        r
    }

    /// The completion request for the current transcript: the configured
    /// model, every message so far, and the advertised tools.
    pub fn build_request(&self) -> (r: CompletionRequest)
        ensures
            r.model == self.model,
            msg_views(r.messages@) == msg_views(self.transcript@),
            r.tools matches Some(ts) && ts@ == self.tools@,
    {
        let messages = self.transcript.clone();
        let tools = self.tools.clone();
        proof {
            assert(msg_views(messages@) =~= msg_views(self.transcript@));
            assert(tools@ =~= self.tools@);
        }
        CompletionRequest { model: self.model.clone(), messages, tools: Some(tools) }
    }

    /// Submit user input. Empty input changes nothing; input while a turn
    /// is active is rejected outright (never queued or interleaved); and
    /// otherwise the text joins the transcript as a `user` message and one
    /// completion request is issued.
    pub fn submit_user_input(&mut self, text: &str) -> (r: Effect)
        requires
            old(self).wf(),
        ensures
            final(self).wf(),
            text@.len() == 0 ==> *final(self) == *old(self) && r is Nothing,
            text@.len() > 0 && old(self).phase != Phase::Idle ==> *final(self) == *old(self)
                && r is Rejected,
            text@.len() > 0 && old(self).phase == Phase::Idle ==> {
                &&& final(self).transcript@.len() == old(self).transcript@.len() + 1
                &&& final(self).transcript@.take(old(self).transcript@.len() as int) == old(
                    self,
                ).transcript@
                &&& final(self).transcript@.last().role == Role::User
                &&& final(self).transcript@.last().content@.len() == 1
                &&& final(self).transcript@.last().content@[0].spec_as_text() == Some(text@)
                &&& final(self).phase == Phase::AwaitingCompletion
                &&& final(self).pending@ == old(self).pending@
                &&& final(self).model == old(self).model
                &&& final(self).tools@ == old(self).tools@
                &&& (r matches Effect::Complete(req) && req.model == old(self).model && msg_views(
                    req.messages@,
                ) == msg_views(final(self).transcript@))
            },
    {
        if text.unicode_len() == 0 {
            return Effect::Nothing;
        }
        if !matches!(self.phase, Phase::Idle) {
            return Effect::Rejected;
        }
        let ghost t0 = self.transcript@;
        self.transcript.push(Message::user(text));
        self.phase = Phase::AwaitingCompletion;
        proof {
            assert(self.transcript@.take(t0.len() as int) =~= t0);
        }
        Effect::Complete(self.build_request())
    }

    /// Fold one completion reply into the transcript. A reply without
    /// choices ends the turn with a synthetic error notice. Otherwise every
    /// message of the first choice joins the transcript as an assistant
    /// message; if they carry tool calls the turn waits for those calls,
    /// and if not the turn is over.
    ///
    /// The reply's call ids must be distinct — the data model guarantees a
    /// call id is unique within its turn.
    pub fn on_completion_response(&mut self, response: CompletionResponse) -> (r: Effect)
        requires
            old(self).wf(),
            response.choices@.len() > 0 ==> distinct_seq(
                view_ids_of(calls_of(response.choices@[0].messages@)),
            ),
        ensures
            final(self).wf(),
            final(self).model == old(self).model,
            final(self).tools@ == old(self).tools@,
            old(self).phase != Phase::AwaitingCompletion ==> *final(self) == *old(self)
                && r is Nothing,
            old(self).phase == Phase::AwaitingCompletion && response.choices@.len() == 0 ==> {
                &&& final(self).transcript@.len() == old(self).transcript@.len() + 1
                &&& final(self).transcript@.take(old(self).transcript@.len() as int) == old(
                    self,
                ).transcript@
                &&& final(self).transcript@.last().role == Role::Assistant
                &&& final(self).phase == Phase::Idle
                &&& final(self).pending@.len() == 0
                &&& r is Nothing
            },
            old(self).phase == Phase::AwaitingCompletion && response.choices@.len() > 0 ==> {
                let msgs = response.choices@[0].messages@;
                let calls = calls_of(msgs);
                &&& final(self).transcript@ == old(self).transcript@ + assistants_of(msgs)
                &&& (calls.len() == 0 ==> {
                    &&& final(self).phase == Phase::Idle
                    &&& final(self).pending@.len() == 0
                    &&& r is Nothing
                })
                &&& (calls.len() > 0 ==> {
                    &&& final(self).phase == Phase::AwaitingToolResults
                    &&& ids_view(final(self).pending@) == view_ids_of(calls)
                    &&& (r matches Effect::Dispatch(cs) && cs@ == calls)
                })
            },
    {
        if !matches!(self.phase, Phase::AwaitingCompletion) {
            return Effect::Nothing;
        }
        let mut response = response;
        if response.choices.len() == 0 {
            let ghost t0 = self.transcript@;
            self.transcript.push(Message::assistant("Error: No response from model."));
            self.phase = Phase::Idle;
            proof {
                assert(self.transcript@.take(t0.len() as int) =~= t0);
            }
            return Effect::Nothing;
        }
        let choice = response.choices.remove(0);
        let mut msgs = choice.messages;
        let ghost orig = msgs@;

        // Gather every tool call of the reply before the messages move.
        let mut calls: Vec<ToolCall> = Vec::new();
        let mut i: usize = 0;
        proof {
            assert(calls@ =~= calls_of(orig.take(0int)));
        }
        while i < msgs.len()
            invariant
                i <= msgs@.len(),
                msgs@ == orig,
                calls@ == calls_of(orig.take(i as int)),
            decreases msgs@.len() - i,
        {
            let ghost calls0 = calls@;
            match &msgs[i] {
                Message { tool_calls: Some(cs), .. } => {
                    let mut k: usize = 0;
                    while k < cs.len()
                        invariant
                            k <= cs@.len(),
                            calls@ == calls0 + cs@.take(k as int),
                        decreases cs@.len() - k,
                    {
                        calls.push(cs[k].clone());
                        proof {
                            assert(cs@.take(k + 1) =~= cs@.take(k as int).push(cs@[k as int]));
                            assert(calls@ =~= calls0 + cs@.take(k + 1));
                        }
                        k += 1;
                    }
                    proof {
                        assert(cs@.take(cs@.len() as int) =~= cs@);
                        assert(call_list(orig[i as int]) == cs@);
                    }
                },
                _ => {
                    proof {
                        assert(call_list(orig[i as int]) =~= Seq::<ToolCall>::empty());
                        assert(calls@ =~= calls0 + call_list(orig[i as int]));
                    }
                },
            }
            proof {
                assert(orig.take(i + 1).drop_last() =~= orig.take(i as int));
                assert(orig.take(i + 1).last() == orig[i as int]);
                assert(calls@ =~= calls_of(orig.take(i + 1)));
            }
            i += 1;
        }
        proof {
            assert(orig.take(orig.len() as int) =~= orig);
        }

        // Append every reply message as an assistant message, in order.
        let ghost t0 = self.transcript@;
        let ghost mut n: int = 0;
        proof {
            assert(t0 + assistants_of(orig.take(0int)) =~= t0);
        }
        while msgs.len() > 0
            invariant
                0 <= n <= orig.len(),
                msgs@ == orig.skip(n),
                self.transcript@ == t0 + assistants_of(orig.take(n)),
                self.model == old(self).model,
                self.tools@ == old(self).tools@,
                self.pending@ == old(self).pending@,
                self.phase == old(self).phase,
            decreases msgs@.len(),
        {
            let mut m = msgs.remove(0);
            proof {
                assert(m == orig[n]);
                assert(orig.skip(n).remove(0) =~= orig.skip(n + 1));
            }
            m.role = Role::Assistant;
            self.transcript.push(m);
            proof {
                assert(assistants_of(orig.take(n + 1)) =~= assistants_of(orig.take(n)).push(
                    as_assistant(orig[n]),
                ));
                assert(self.transcript@ =~= t0 + assistants_of(orig.take(n + 1)));
                n = n + 1;
            }
        }
        proof {
            assert(orig.skip(n).len() == 0);
            assert(n == orig.len());
            assert(orig.take(orig.len() as int) =~= orig);
        }

        if calls.len() == 0 {
            self.phase = Phase::Idle;
            return Effect::Nothing;
        }

        // Register every call id as pending and hand the calls out.
        let mut pending: Vec<String> = Vec::new();
        let mut k: usize = 0;
        proof {
            assert(ids_view(pending@) =~= view_ids_of(calls@.take(0int)));
        }
        while k < calls.len()
            invariant
                k <= calls@.len(),
                ids_view(pending@) == view_ids_of(calls@.take(k as int)),
            decreases calls@.len() - k,
        {
            pending.push(calls[k].id.clone());
            proof {
                assert(calls@.take(k + 1) =~= calls@.take(k as int).push(calls@[k as int]));
                assert(view_ids_of(calls@.take(k + 1)) =~= view_ids_of(calls@.take(k as int)).push(
                    calls@[k as int].id@,
                ));
                assert(ids_view(pending@) =~= view_ids_of(calls@.take(k + 1)));
            }
            k += 1;
        }
        proof {
            assert(calls@.take(calls@.len() as int) =~= calls@);
        }
        self.pending = pending;
        self.phase = Phase::AwaitingToolResults;
        Effect::Dispatch(calls)
    }

    /// Fold one tool result — success or failure — back into the
    /// transcript. The arrival order of concurrent results does not matter;
    /// each removes its id from the pending set and appends one `tool`
    /// message, and only the arrival that empties the set issues the
    /// turn's next completion request. A result whose id is not pending
    /// (a stale or duplicate arrival) changes nothing.
    pub fn on_tool_result(&mut self, call_id: &String, outcome: Result<ToolResult, String>) -> (r:
        Effect)
        requires
            old(self).wf(),
        ensures
            final(self).wf(),
            final(self).model == old(self).model,
            final(self).tools@ == old(self).tools@,
            (final(self).transcript@, ids_view(final(self).pending@)) == step_result(
                old(self).transcript@,
                ids_view(old(self).pending@),
                call_id@,
                final(self).transcript@.last(),
            ),
            old(self).phase != Phase::AwaitingToolResults || !ids_view(old(self).pending@).contains(
                call_id@,
            ) ==> *final(self) == *old(self) && r is Nothing,
            old(self).phase == Phase::AwaitingToolResults && ids_view(old(self).pending@).contains(
                call_id@,
            ) ==> {
                &&& final(self).transcript@.len() == old(self).transcript@.len() + 1
                &&& final(self).transcript@.take(old(self).transcript@.len() as int) == old(
                    self,
                ).transcript@
                &&& is_tool_answer(
                    final(self).transcript@.last(),
                    call_id@,
                    match outcome {
                        Ok(tr) => spec_render(tr.contents@),
                        Err(msg) => msg@,
                    },
                    !(outcome matches Ok(tr) && tr.success),
                )
                &&& ids_view(final(self).pending@) == remove_id(
                    ids_view(old(self).pending@),
                    call_id@,
                )
                &&& (final(self).pending@.len() == 0 ==> final(self).phase
                    == Phase::AwaitingCompletion && (r matches Effect::Complete(req) && req.model
                    == old(self).model && msg_views(req.messages@) == msg_views(
                    final(self).transcript@,
                )))
                &&& (final(self).pending@.len() > 0 ==> final(self).phase
                    == Phase::AwaitingToolResults && r is Nothing)
            },
    {
        if !matches!(self.phase, Phase::AwaitingToolResults) {
            return Effect::Nothing;
        }
        match find_id(&self.pending, call_id) {
            None => Effect::Nothing,
            Some(at) => {
                let ghost p0 = ids_view(self.pending@);
                self.pending.remove(at);
                proof {
                    assert(p0[at as int] == call_id@);
                    assert(p0.contains(call_id@));
                    assert(p0.index_of(call_id@) == at as int) by {
                        let w = p0.index_of(call_id@);
                        assert(0 <= w < p0.len() && p0[w] == call_id@);
                        if w != at as int {
                            assert(p0[w] == p0[at as int]);
                            assert(false);
                        }
                    }
                    assert(ids_view(self.pending@) =~= remove_id(p0, call_id@));
                }
                let ghost t0 = self.transcript@;
                let answer = match outcome {
                    Ok(tr) => {
                        let text = render_contents(&tr.contents);
                        if tr.success {
                            Message {
                                role: Role::Tool,
                                content: vec![Content::tool_result(call_id.as_str(), text.as_str())],
                                tool_calls: None,
                                tool_call_id: Some(call_id.clone()),
                            }
                        } else {
                            Message {
                                role: Role::Tool,
                                content: vec![
                                    Content::tool_result_error(call_id.as_str(), text.as_str()),
                                ],
                                tool_calls: None,
                                tool_call_id: Some(call_id.clone()),
                            }
                        }
                    },
                    Err(msg) => Message {
                        role: Role::Tool,
                        content: vec![Content::tool_result_error(call_id.as_str(), msg.as_str())],
                        tool_calls: None,
                        tool_call_id: Some(call_id.clone()),
                    },
                };
                self.transcript.push(answer);
                proof {
                    assert(self.transcript@.take(t0.len() as int) =~= t0);
                }
                if self.pending.len() == 0 {
                    self.phase = Phase::AwaitingCompletion;
                    Effect::Complete(self.build_request())
                } else {
                    Effect::Nothing
                }
            },
        }
    }
}

/// The pending set after a sequence of results has arrived, in that order.
pub open spec fn fold_pending(pending: Seq<Seq<char>>, arrivals: Seq<Seq<char>>) -> Seq<Seq<char>>
    decreases arrivals.len(),
{
    if arrivals.len() == 0 {
        pending
    } else {
        remove_id(fold_pending(pending, arrivals.drop_last()), arrivals.last())
    }
}

/// Whether the `i`-th arrival is the one that empties the pending set and so
/// issues the turn's next completion request — exactly what
/// [`Orchestrator::on_tool_result`] returns `Effect::Complete` for.
pub open spec fn issues_at(pending: Seq<Seq<char>>, arrivals: Seq<Seq<char>>, i: int) -> bool {
    let before = fold_pending(pending, arrivals.take(i));
    before.contains(arrivals[i]) && before.len() == 1
}

/// Removing one id from a distinct pending set: the set shrinks by one when
/// the id is a member, stays distinct, and keeps exactly the other ids.
proof fn lemma_remove_id(pending: Seq<Seq<char>>, id: Seq<char>)
    requires
        distinct_seq(pending),
    ensures
        !pending.contains(id) ==> remove_id(pending, id) == pending,
        pending.contains(id) ==> remove_id(pending, id).len() == pending.len() - 1,
        distinct_seq(remove_id(pending, id)),
        forall|x: Seq<char>|
            #[trigger] remove_id(pending, id).contains(x) <==> (pending.contains(x) && x != id),
{
    let q = remove_id(pending, id);
    if pending.contains(id) {
        let k = pending.index_of(id);
        assert(0 <= k < pending.len() && pending[k] == id);
        pending.remove_ensures(k);
        assert forall|i: int, j: int| 0 <= i < j < q.len() implies q[i] != q[j] by {
            assert(q[i] == if i < k {
                pending[i]
            } else {
                pending[i + 1]
            });
            assert(q[j] == if j < k {
                pending[j]
            } else {
                pending[j + 1]
            });
        }
        assert forall|x: Seq<char>| #[trigger] q.contains(x) <==> (pending.contains(x) && x != id)
        by {
            if q.contains(x) {
                let j = choose|j: int| 0 <= j < q.len() && q[j] == x;
                let pj = if j < k {
                    j
                } else {
                    j + 1
                };
                assert(pending[pj] == x);
                assert(pending.contains(x));
                if x == id {
                    assert(pending[pj] == pending[k] && pj != k);
                    assert(false);
                }
            }
            if pending.contains(x) && x != id {
                let pj = choose|pj: int| 0 <= pj < pending.len() && pending[pj] == x;
                assert(pj != k);
                let j = if pj < k {
                    pj
                } else {
                    pj - 1
                };
                assert(q[j] == x);
                assert(q.contains(x));
            }
        }
    } else {
        assert forall|x: Seq<char>| #[trigger] q.contains(x) <==> (pending.contains(x) && x != id)
        by {
            if q.contains(x) && x == id {
                assert(pending.contains(id));
                assert(false);
            }
        }
    }
}

/// Folding a distinct set of arrivals that are all pending removes each of
/// them exactly once: the pending set shrinks by one per arrival and ends up
/// holding exactly the ids that never arrived.
proof fn lemma_fold_pending_props(pending: Seq<Seq<char>>, arrivals: Seq<Seq<char>>)
    requires
        distinct_seq(pending),
        distinct_seq(arrivals),
        forall|j: int| 0 <= j < arrivals.len() ==> pending.contains(#[trigger] arrivals[j]),
    ensures
        distinct_seq(fold_pending(pending, arrivals)),
        fold_pending(pending, arrivals).len() == pending.len() - arrivals.len(),
        forall|x: Seq<char>|
            #[trigger] fold_pending(pending, arrivals).contains(x) <==> (pending.contains(x)
                && !arrivals.contains(x)),
    decreases arrivals.len(),
{
    if arrivals.len() == 0 {
        assert forall|x: Seq<char>| #[trigger] fold_pending(pending, arrivals).contains(x) <==> (
        pending.contains(x) && !arrivals.contains(x)) by {
            if arrivals.contains(x) {
                let j = choose|j: int| 0 <= j < arrivals.len() && arrivals[j] == x;
                assert(false);
            }
        }
    } else {
        let front = arrivals.drop_last();
        let last = arrivals.last();
        assert(forall|j: int| 0 <= j < front.len() ==> front[j] == arrivals[j]);
        lemma_fold_pending_props(pending, front);
        let q = fold_pending(pending, front);
        assert(!front.contains(last)) by {
            if front.contains(last) {
                let j = choose|j: int| 0 <= j < front.len() && front[j] == last;
                assert(arrivals[j] == arrivals[arrivals.len() - 1]);
                assert(false);
            }
        }
        assert(pending.contains(last));
        assert(q.contains(last));
        lemma_remove_id(q, last);
        assert forall|x: Seq<char>| #[trigger] fold_pending(pending, arrivals).contains(x) <==> (
        pending.contains(x) && !arrivals.contains(x)) by {
            assert(fold_pending(pending, arrivals) == remove_id(q, last));
            if arrivals.contains(x) && x != last {
                let j = choose|j: int| 0 <= j < arrivals.len() && arrivals[j] == x;
                assert(j < arrivals.len() - 1);
                assert(front[j] == x);
                assert(front.contains(x));
            }
            if front.contains(x) {
                let j = choose|j: int| 0 <= j < front.len() && front[j] == x;
                assert(arrivals[j] == x);
                assert(arrivals.contains(x));
            }
            if x == last {
                assert(arrivals.contains(x));
            }
        }
    }
}

/// Law (pending-set convergence): a turn that dispatched `k >= 1` tool calls
/// issues exactly one subsequent completion request — on the arrival that
/// folds the last outstanding result in, never before, whatever order the
/// `k` results arrive in.
pub proof fn lemma_pending_convergence(pending: Seq<Seq<char>>, arrivals: Seq<Seq<char>>)
    requires
        distinct_seq(pending),
        distinct_seq(arrivals),
        pending.len() == arrivals.len(),
        pending.len() > 0,
        forall|j: int| 0 <= j < arrivals.len() ==> pending.contains(#[trigger] arrivals[j]),
    ensures
        fold_pending(pending, arrivals).len() == 0,
        forall|i: int|
            0 <= i < arrivals.len() ==> (issues_at(pending, arrivals, i) <==> i == arrivals.len()
                - 1),
{
    lemma_fold_pending_props(pending, arrivals);
    assert forall|i: int| 0 <= i < arrivals.len() implies (issues_at(pending, arrivals, i) <==> i
        == arrivals.len() - 1) by {
        let front = arrivals.take(i);
        assert(forall|j: int| 0 <= j < front.len() ==> front[j] == arrivals[j]);
        lemma_fold_pending_props(pending, front);
        let before = fold_pending(pending, front);
        assert(before.len() == pending.len() - i);
        assert(before.contains(arrivals[i])) by {
            if front.contains(arrivals[i]) {
                let j = choose|j: int| 0 <= j < front.len() && front[j] == arrivals[i];
                assert(arrivals[j] == arrivals[i] && j < i);
                assert(false);
            }
        }
    }
}

/// One tool result folded into a turn: the id's answer joins the transcript
/// when the id is pending, and a stale id changes nothing.
pub open spec fn step_result(
    transcript: Seq<Message>,
    pending: Seq<Seq<char>>,
    id: Seq<char>,
    m: Message,
) -> (Seq<Message>, Seq<Seq<char>>) {
    if pending.contains(id) {
        (transcript.push(m), remove_id(pending, id))
    } else {
        (transcript, pending)
    }
}

/// A whole turn's worth of tool results folded in, in arrival order.
pub open spec fn fold_turn(
    transcript: Seq<Message>,
    pending: Seq<Seq<char>>,
    events: Seq<(Seq<char>, Message)>,
) -> (Seq<Message>, Seq<Seq<char>>)
    decreases events.len(),
{
    if events.len() == 0 {
        (transcript, pending)
    } else {
        let prev = fold_turn(transcript, pending, events.drop_last());
        step_result(prev.0, prev.1, events.last().0, events.last().1)
    }
}

/// Law (transcript append order): however a turn's concurrent tool results
/// interleave, the transcript remains the pre-turn base, then every
/// assistant message of the completion reply, then tool messages only —
/// every assistant message of the turn appears before every tool message
/// answering it.
pub proof fn lemma_transcript_order(
    base: Seq<Message>,
    assists: Seq<Message>,
    pending: Seq<Seq<char>>,
    events: Seq<(Seq<char>, Message)>,
)
    requires
        forall|k: int| 0 <= k < assists.len() ==> (#[trigger] assists[k]).role == Role::Assistant,
        forall|k: int| 0 <= k < events.len() ==> (#[trigger] events[k]).1.role == Role::Tool,
    ensures
        ({
            let folded = fold_turn(base + assists, pending, events);
            &&& folded.0.len() >= base.len() + assists.len()
            &&& folded.0.take(base.len() + assists.len() as int) == base + assists
            &&& forall|j: int|
                base.len() + assists.len() <= j < folded.0.len() ==> folded.0[j].role == Role::Tool
        }),
    decreases events.len(),
{
    let start = base + assists;
    if events.len() == 0 {
        assert(fold_turn(start, pending, events).0.take(base.len() + assists.len() as int) =~= start);
    } else {
        let front = events.drop_last();
        assert(forall|k: int| 0 <= k < front.len() ==> front[k] == events[k]);
        lemma_transcript_order(base, assists, pending, front);
        let prev = fold_turn(start, pending, front);
        let folded = fold_turn(start, pending, events);
        if prev.1.contains(events.last().0) {
            assert(folded.0 == prev.0.push(events.last().1));
            assert(folded.0.take(base.len() + assists.len() as int) =~= prev.0.take(
                base.len() + assists.len() as int,
            ));
            assert(events.last().1.role == Role::Tool);
        }
    }
}

/// The position of the id whose characters match `id`, if any.
fn find_id(pending: &Vec<String>, id: &String) -> (r: Option<usize>)
    ensures
        match r {
            Some(at) => at < pending@.len() && pending@[at as int]@ == id@,
            None => !ids_view(pending@).contains(id@),
        },
{
    let mut i: usize = 0;
    while i < pending.len()
        invariant
            i <= pending@.len(),
            forall|k: int| 0 <= k < i ==> pending@[k]@ != id@,
        decreases pending@.len() - i,
    {
        if pending[i].eq(id) {
            return Some(i);
        }
        i += 1;
    }
    proof {
        assert forall|k: int| 0 <= k < ids_view(pending@).len() implies ids_view(pending@)[k]
            != id@ by {
            assert(ids_view(pending@)[k] == pending@[k]@);
        }
    }
    None
}

/// Render a tool result's content blocks as one text.
pub fn render_contents(contents: &Vec<Content>) -> (r: String)
    ensures
        r@ == spec_render(contents@),
{
    let mut r = String::new();
    let mut i: usize = 0;
    proof {
        assert(r@ =~= spec_render(contents@.take(0int)));
    }
    while i < contents.len()
        invariant
            i <= contents@.len(),
            r@ == spec_render(contents@.take(i as int)),
        decreases contents@.len() - i,
    {
        let piece = contents[i].projected_text();
        r.append(piece.as_str());
        proof {
            assert(contents@.take(i + 1).drop_last() =~= contents@.take(i as int));
            assert(contents@.take(i + 1).last() == contents@[i as int]);
        }
        i += 1;
    }
    proof {
        assert(contents@.take(contents@.len() as int) =~= contents@);
    }
    r
}

} // verus!
