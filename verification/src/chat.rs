//! The chat page's state machine: the visible message list, the input box,
//! the model picker and the awaiting flag. Every decision is taken here and
//! returned as a [`ChatEffect`]; performing the network work and feeding
//! the outcome back in is the caller's job, so nothing asynchronous ever
//! touches this state directly.
//!
//! The whole transition relation is the spec function [`chat_step`], which
//! `update` is proved to implement; the shell's contract reuses it.

use vstd::prelude::*;

use crate::error::ApiError;
use crate::models::{
    Clients, CompletionRequest, CompletionResponse, Content, Message, ModelInfo, Role, Tool,
};

verus! {

/// Who wrote a chat message.
#[derive(Clone, Copy, Debug, PartialEq, Eq, Structural)]
pub enum Sender {
    User,
    Bot,
}

/// One rendered line of the chat: who sent it and its text.
#[derive(Debug)]
pub struct ChatMessage {
    pub sender: Sender,
    pub content: String,
}

impl Clone for ChatMessage {
    fn clone(&self) -> (res: Self)
        ensures
            res == *self,
    {
        ChatMessage { sender: self.sender, content: self.content.clone() }
    }
}

impl ChatMessage {
    /// This line as a transcript message: the user's lines become `user`
    /// messages, the bot's become `assistant` messages.
    pub fn to_message(&self) -> (r: Message)
        ensures
            r.role == (match self.sender {
                Sender::User => Role::User,
                Sender::Bot => Role::Assistant,
            }),
            r.content@.len() == 1,
            r.content@[0].spec_as_text() == Some(self.content@),
            r.tool_calls is None,
            r.tool_call_id is None,
    {
        match self.sender {
            Sender::User => Message::user(self.content.as_str()),
            Sender::Bot => Message::assistant(self.content.as_str()),
        }
    }
}

/// Everything that can happen to the chat page.
#[derive(Debug)]
pub enum ChatAction {
    InputChanged(String),
    SendMessage,
    ResponseReceived(CompletionResponse),
    ModelSelected(String),
    ModelsLoaded(Vec<ModelInfo>),
    ToolsLoaded(Vec<Tool>),
    UrlClicked(String),
}

/// What the caller must do after an update.
#[derive(Debug)]
pub enum ChatEffect {
    /// Nothing.
    Nothing,
    /// The page is busy: a send while a reply is outstanding is rejected,
    /// never queued or silently interleaved.
    Rejected,
    /// Refresh the model catalog and answer with `ModelsLoaded`.
    LoadModels,
    /// Issue one completion request for these lines against this provider
    /// and model, with these tools advertised, and answer with
    /// `ResponseReceived`.
    RequestCompletion {
        messages: Vec<ChatMessage>,
        client: Clients,
        model: String,
        tools: Vec<Tool>,
    },
}

/// The first catalog entry with this display name, scanning in order.
pub open spec fn find_model_in(models: Seq<ModelInfo>, name: Seq<char>) -> Option<ModelInfo>
    decreases models.len(),
{
    if models.len() == 0 {
        None
    } else if models[0].name@ == name {
        Some(models[0])
    } else {
        find_model_in(models.skip(1), name)
    }
}

/// The display name the chat will request a completion for: the selection,
/// or the built-in default when nothing is selected yet.
pub open spec fn selected_name(selected: Option<String>) -> Seq<char> {
    match selected {
        Some(s) => s@,
        None => "gpt-4o-mini"@,
    }
}

/// The text of every content block of one message, each under its total
/// textual projection, so no block is silently dropped.
pub open spec fn block_texts(content: Seq<Content>) -> Seq<Seq<char>> {
    content.map_values(|c: Content| c.spec_projected_text())
}

/// The lines a completion reply shows in the chat: one line per content
/// block of every message of the first choice, in order, each carrying the
/// block's total textual projection.
pub open spec fn reply_texts(msgs: Seq<Message>) -> Seq<Seq<char>>
    decreases msgs.len(),
{
    if msgs.len() == 0 {
        Seq::empty()
    } else {
        reply_texts(msgs.drop_last()) + block_texts(msgs.last().content@)
    }
}

/// The chat page's state.
#[derive(Debug)]
pub struct State {
    /// The lines shown in the chat window.
    pub messages: Vec<ChatMessage>,
    /// What is typed into the input box.
    pub input_value: String,
    /// Whether a reply is outstanding; input is disabled while it is.
    pub awaiting_response: bool,
    /// The display name of the chosen model, once one is chosen.
    pub selected_model: Option<String>,
    /// The model catalog the picker offers.
    pub available_models: Vec<ModelInfo>,
    /// The tool catalog advertised with completion requests.
    pub available_tools: Vec<Tool>,
}

/// The chat page's whole transition relation: what one action does to the
/// state and what effect it returns. [`State::update`] is proved to
/// implement exactly this.
pub open spec fn chat_step(pre: State, action: ChatAction, post: State, r: ChatEffect) -> bool {
    match action {
        ChatAction::InputChanged(v) => {
            &&& post.input_value == v
            &&& post.messages@ == pre.messages@
            &&& post.awaiting_response == pre.awaiting_response
            &&& post.selected_model == pre.selected_model
            &&& post.available_models@ == pre.available_models@
            &&& post.available_tools@ == pre.available_tools@
            &&& r is Nothing
        },
        ChatAction::SendMessage => {
            if pre.input_value@.len() == 0 {
                post == pre && r is Nothing
            } else if pre.awaiting_response {
                post == pre && r is Rejected
            } else {
                &&& post.messages@.len() == pre.messages@.len() + 1
                &&& post.messages@.take(pre.messages@.len() as int) == pre.messages@
                &&& post.messages@.last().sender == Sender::User
                &&& post.messages@.last().content == pre.input_value
                &&& post.input_value == pre.input_value
                &&& post.awaiting_response
                &&& post.selected_model == pre.selected_model
                &&& post.available_models@ == pre.available_models@
                &&& post.available_tools@ == pre.available_tools@
                &&& (r matches ChatEffect::RequestCompletion { messages, client, model, tools }
                    && {
                    &&& messages@ == post.messages@
                    &&& tools@ == pre.available_tools@
                    &&& (match find_model_in(
                        pre.available_models@,
                        selected_name(pre.selected_model),
                    ) {
                        Some(m) => client == m.client && model == m.id,
                        None => client == Clients::OpenAI && model@ == "gpt-4o-mini"@,
                    })
                })
            }
        },
        ChatAction::ResponseReceived(resp) => {
            &&& post.input_value@ == Seq::<char>::empty()
            &&& !post.awaiting_response
            &&& post.selected_model == pre.selected_model
            &&& post.available_models@ == pre.available_models@
            &&& post.available_tools@ == pre.available_tools@
            &&& r is Nothing
            &&& (resp.choices@.len() == 0 ==> {
                &&& post.messages@.len() == pre.messages@.len() + 1
                &&& post.messages@.take(pre.messages@.len() as int) == pre.messages@
                &&& post.messages@.last().sender == Sender::Bot
                &&& post.messages@.last().content@ == "Error: No response from model."@
            })
            &&& (resp.choices@.len() > 0 ==> {
                let texts = reply_texts(resp.choices@[0].messages@);
                &&& post.messages@.len() == pre.messages@.len() + texts.len()
                &&& post.messages@.take(pre.messages@.len() as int) == pre.messages@
                &&& forall|k: int|
                    0 <= k < texts.len() ==> {
                        &&& (#[trigger] post.messages@[pre.messages@.len() + k]).sender
                            == Sender::Bot
                        &&& post.messages@[pre.messages@.len() + k].content@ == texts[k]
                    }
            })
        },
        ChatAction::ModelSelected(name) => {
            &&& post.selected_model == Some(name)
            &&& post.messages@ == pre.messages@
            &&& post.input_value == pre.input_value
            &&& post.awaiting_response == pre.awaiting_response
            &&& post.available_models@ == pre.available_models@
            &&& post.available_tools@ == pre.available_tools@
            &&& r is Nothing
        },
        ChatAction::ModelsLoaded(models) => {
            &&& post.available_models@ == models@
            &&& !post.awaiting_response
            &&& (match pre.selected_model {
                Some(s) => post.selected_model == Some(s),
                None => {
                    if models@.len() > 0 {
                        post.selected_model == Some(models@[0].name)
                    } else {
                        post.selected_model is None
                    }
                },
            })
            &&& post.messages@ == pre.messages@
            &&& post.input_value == pre.input_value
            &&& post.available_tools@ == pre.available_tools@
            &&& r is Nothing
        },
        ChatAction::ToolsLoaded(tools) => {
            &&& post.available_tools@ == tools@
            &&& post.messages@ == pre.messages@
            &&& post.input_value == pre.input_value
            &&& post.awaiting_response == pre.awaiting_response
            &&& post.selected_model == pre.selected_model
            &&& post.available_models@ == pre.available_models@
            &&& r is Nothing
        },
        ChatAction::UrlClicked(_) => post == pre && r is Nothing,
    }
}

impl State {
    /// A fresh chat page, awaiting the model catalog it asks for.
    pub fn new() -> (r: (State, ChatEffect))
        ensures
            r.0.messages@ == Seq::<ChatMessage>::empty(),
            r.0.input_value@ == Seq::<char>::empty(),
            r.0.awaiting_response,
            r.0.selected_model is None,
            r.0.available_models@ == Seq::<ModelInfo>::empty(),
            r.0.available_tools@ == Seq::<Tool>::empty(),
            r.1 is LoadModels,
    {
        let state = State {
            messages: Vec::new(),
            input_value: String::new(),
            awaiting_response: true,
            selected_model: None,
            available_models: Vec::new(),
            available_tools: Vec::new(),
        };
        (state, ChatEffect::LoadModels)
    }

    /// Apply one action and say what to do next: exactly the transition
    /// [`chat_step`] describes.
    ///
    /// Sending empty input changes nothing at all, and sending while a
    /// reply is outstanding is rejected outright — never queued or silently
    /// interleaved. Otherwise a send appends the user's line, disables
    /// input, picks the selected model (or the built-in default when the
    /// selection names no catalog entry) and asks for one completion. A
    /// reply appends one line per content block under its total textual
    /// projection — or an error notice when the reply is empty — clears the
    /// input box and enables input again.
    pub fn update(&mut self, action: ChatAction) -> (r: ChatEffect)
        ensures
            chat_step(*old(self), action, *final(self), r),
    {
        match action {
            ChatAction::InputChanged(value) => {
                self.input_value = value;
                ChatEffect::Nothing
            },
            ChatAction::SendMessage => self.on_send_message(),
            ChatAction::ResponseReceived(response) => self.on_response_received(response),
            ChatAction::ModelSelected(model_name) => {
                self.selected_model = Some(model_name);
                ChatEffect::Nothing
            },
            ChatAction::ModelsLoaded(models) => self.on_models_loaded(models),
            ChatAction::ToolsLoaded(tools) => {
                self.available_tools = tools;
                ChatEffect::Nothing
            },
            ChatAction::UrlClicked(_) => ChatEffect::Nothing,
        }
    }

    /// Append the typed line and ask for a completion. Empty input changes
    /// nothing; a send while a reply is outstanding is rejected and changes
    /// nothing.
    fn on_send_message(&mut self) -> (r: ChatEffect)
        ensures
            old(self).input_value@.len() == 0 ==> *final(self) == *old(self) && r is Nothing,
            old(self).input_value@.len() > 0 && old(self).awaiting_response ==> *final(self)
                == *old(self) && r is Rejected,
            old(self).input_value@.len() > 0 && !old(self).awaiting_response ==> {
                &&& final(self).messages@.len() == old(self).messages@.len() + 1
                &&& final(self).messages@.take(old(self).messages@.len() as int) == old(
                    self,
                ).messages@
                &&& final(self).messages@.last().sender == Sender::User
                &&& final(self).messages@.last().content == old(self).input_value
                &&& final(self).input_value == old(self).input_value
                &&& final(self).awaiting_response
                &&& final(self).selected_model == old(self).selected_model
                &&& final(self).available_models@ == old(self).available_models@
                &&& final(self).available_tools@ == old(self).available_tools@
                &&& (r matches ChatEffect::RequestCompletion { messages, client, model, tools }
                    && {
                    &&& messages@ == final(self).messages@
                    &&& tools@ == old(self).available_tools@
                    &&& (match find_model_in(
                        old(self).available_models@,
                        selected_name(old(self).selected_model),
                    ) {
                        Some(m) => client == m.client && model == m.id,
                        None => client == Clients::OpenAI && model@ == "gpt-4o-mini"@,
                    })
                })
            },
    {
        if self.input_value.as_str().unicode_len() == 0 {
            return ChatEffect::Nothing;
        }
        if self.awaiting_response {
            return ChatEffect::Rejected;
        }
        self.awaiting_response = true;
        let ghost m0 = self.messages@;
        let user_message = ChatMessage { sender: Sender::User, content: self.input_value.clone() };
        self.messages.push(user_message);
        proof {
            assert(self.messages@.take(m0.len() as int) =~= m0);
        }

        let found = self.lookup_selected();
        let (client, model) = match found {
            Some(m) => (m.client, m.id),
            None => (Clients::OpenAI, "gpt-4o-mini".to_owned()),
        };
        let messages = clone_chat_messages(&self.messages);
        let tools = self.available_tools.clone();
        proof {
            assert(tools@ =~= self.available_tools@);
        }
        ChatEffect::RequestCompletion { messages, client, model, tools }
    }

    /// The catalog entry the current selection names, if any.
    fn lookup_selected(&self) -> (r: Option<ModelInfo>)
        ensures
            r == find_model_in(self.available_models@, selected_name(self.selected_model)),
    {
        let name: &str = match &self.selected_model {
            Some(s) => s.as_str(),
            None => "gpt-4o-mini",
        };
        let mut i: usize = 0;
        proof {
            assert(self.available_models@.skip(0int) =~= self.available_models@);
        }
        while i < self.available_models.len()
            invariant
                i <= self.available_models@.len(),
                name@ == selected_name(self.selected_model),
                find_model_in(self.available_models@, name@) == find_model_in(
                    self.available_models@.skip(i as int),
                    name@,
                ),
            decreases self.available_models@.len() - i,
        {
            proof {
                assert(self.available_models@.skip(i as int)[0] == self.available_models@[
                    i as int]);
            }
            if crate::text::str_eq(self.available_models[i].name.as_str(), name) {
                return Some(self.available_models[i].clone());
            }
            proof {
                assert(self.available_models@.skip(i as int).skip(1) =~= self.available_models@.skip(
                    i + 1,
                ));
            }
            i += 1;
        }
        proof {
            assert(self.available_models@.skip(self.available_models@.len() as int) =~= Seq::<
                ModelInfo,
            >::empty());
        }
        None
    }

    /// Fold a reply into the chat: one line per content block under its
    /// total textual projection, so nothing the model returned is silently
    /// dropped — or an error notice when the reply carries no choices; then
    /// clear the input and accept input again.
    fn on_response_received(&mut self, response: CompletionResponse) -> (r: ChatEffect)
        ensures
            final(self).input_value@ == Seq::<char>::empty(),
            !final(self).awaiting_response,
            final(self).selected_model == old(self).selected_model,
            final(self).available_models@ == old(self).available_models@,
            final(self).available_tools@ == old(self).available_tools@,
            r is Nothing,
            response.choices@.len() == 0 ==> {
                &&& final(self).messages@.len() == old(self).messages@.len() + 1
                &&& final(self).messages@.take(old(self).messages@.len() as int) == old(
                    self,
                ).messages@
                &&& final(self).messages@.last().sender == Sender::Bot
                &&& final(self).messages@.last().content@ == "Error: No response from model."@
            },
            response.choices@.len() > 0 ==> {
                let texts = reply_texts(response.choices@[0].messages@);
                &&& final(self).messages@.len() == old(self).messages@.len() + texts.len()
                &&& final(self).messages@.take(old(self).messages@.len() as int) == old(
                    self,
                ).messages@
                &&& forall|k: int|
                    0 <= k < texts.len() ==> {
                        &&& (#[trigger] final(self).messages@[old(self).messages@.len() + k]).sender
                            == Sender::Bot
                        &&& final(self).messages@[old(self).messages@.len() + k].content@
                            == texts[k]
                    }
            },
    {
        let ghost m0 = self.messages@;
        let mut response = response;
        if response.choices.len() == 0 {
            self.messages.push(
                ChatMessage {
                    sender: Sender::Bot,
                    content: "Error: No response from model.".to_owned(),
                },
            );
            proof {
                assert(self.messages@.take(m0.len() as int) =~= m0);
            }
        } else {
            let choice = response.choices.remove(0);
            let mut msgs = choice.messages;
            let ghost orig = msgs@;
            let ghost mut n: int = 0;
            proof {
                assert(reply_texts(orig.take(0int)) =~= Seq::<Seq<char>>::empty());
            }
            while msgs.len() > 0
                invariant
                    0 <= n <= orig.len(),
                    msgs@ == orig.skip(n),
                    self.messages@.len() == m0.len() + reply_texts(orig.take(n)).len(),
                    self.messages@.take(m0.len() as int) == m0,
                    forall|k: int|
                        0 <= k < reply_texts(orig.take(n)).len() ==> {
                            &&& (#[trigger] self.messages@[m0.len() + k]).sender == Sender::Bot
                            &&& self.messages@[m0.len() + k].content@ == reply_texts(
                                orig.take(n),
                            )[k]
                        },
                    self.input_value == old(self).input_value,
                    self.awaiting_response == old(self).awaiting_response,
                    self.selected_model == old(self).selected_model,
                    self.available_models@ == old(self).available_models@,
                    self.available_tools@ == old(self).available_tools@,
                decreases msgs@.len(),
            {
                let m = msgs.remove(0);
                proof {
                    assert(m == orig[n]);
                    assert(orig.skip(n).remove(0) =~= orig.skip(n + 1));
                }
                let mut blocks = m.content;
                let ghost borig = blocks@;
                let ghost mut b: int = 0;
                while blocks.len() > 0
                    invariant
                        0 <= b <= borig.len(),
                        blocks@ == borig.skip(b),
                        self.messages@.len() == m0.len() + reply_texts(orig.take(n)).len() + b,
                        self.messages@.take(m0.len() as int) == m0,
                        forall|k: int|
                            0 <= k < reply_texts(orig.take(n)).len() ==> {
                                &&& (#[trigger] self.messages@[m0.len() + k]).sender == Sender::Bot
                                &&& self.messages@[m0.len() + k].content@ == reply_texts(
                                    orig.take(n),
                                )[k]
                            },
                        forall|k: int|
                            0 <= k < b ==> {
                                &&& (#[trigger] self.messages@[m0.len() + reply_texts(
                                    orig.take(n),
                                ).len() + k]).sender == Sender::Bot
                                &&& self.messages@[m0.len() + reply_texts(orig.take(n)).len()
                                    + k].content@ == borig[k].spec_projected_text()
                            },
                        self.input_value == old(self).input_value,
                        self.awaiting_response == old(self).awaiting_response,
                        self.selected_model == old(self).selected_model,
                        self.available_models@ == old(self).available_models@,
                        self.available_tools@ == old(self).available_tools@,
                    decreases blocks@.len(),
                {
                    let c = blocks.remove(0);
                    proof {
                        assert(c == borig[b]);
                        assert(borig.skip(b).remove(0) =~= borig.skip(b + 1));
                    }
                    let line = c.projected_text();
                    self.messages.push(ChatMessage { sender: Sender::Bot, content: line });
                    proof {
                        assert(self.messages@.take(m0.len() as int) =~= m0);
                        b = b + 1;
                    }
                }
                proof {
                    assert(b == borig.len());
                    assert(orig.take(n + 1).drop_last() =~= orig.take(n));
                    assert(orig.take(n + 1).last() == orig[n]);
                    assert(reply_texts(orig.take(n + 1)) == reply_texts(orig.take(n))
                        + block_texts(borig));
                    let prev = reply_texts(orig.take(n));
                    let next = reply_texts(orig.take(n + 1));
                    assert forall|k: int| 0 <= k < next.len() implies {
                        &&& (#[trigger] self.messages@[m0.len() + k]).sender == Sender::Bot
                        &&& self.messages@[m0.len() + k].content@ == next[k]
                    } by {
                        if k < prev.len() {
                            assert(next[k] == prev[k]);
                        } else {
                            let kk = k - prev.len();
                            assert(next[k] == block_texts(borig)[kk]);
                            assert(block_texts(borig)[kk] == borig[kk].spec_projected_text());
                            assert((self.messages@[m0.len() + prev.len() + kk]).sender
                                == Sender::Bot);
                            assert(self.messages@[m0.len() + prev.len() + kk].content@
                                == borig[kk].spec_projected_text());
                        }
                    }
                    n = n + 1;
                }
            }
            proof {
                assert(orig.take(orig.len() as int) =~= orig);
            }
        }
        self.input_value = String::new();
        self.awaiting_response = false;
        ChatEffect::Nothing
    }

    /// Install the loaded catalog, pick the first model when nothing is
    /// selected yet, and accept input.
    fn on_models_loaded(&mut self, models: Vec<ModelInfo>) -> (r: ChatEffect)
        ensures
            final(self).available_models@ == models@,
            !final(self).awaiting_response,
            match old(self).selected_model {
                Some(s) => final(self).selected_model == Some(s),
                None => {
                    if models@.len() > 0 {
                        final(self).selected_model == Some(models@[0].name)
                    } else {
                        final(self).selected_model is None
                    }
                },
            },
            final(self).messages@ == old(self).messages@,
            final(self).input_value == old(self).input_value,
            final(self).available_tools@ == old(self).available_tools@,
            r is Nothing,
    {
        self.available_models = models;
        if self.selected_model.is_none() && self.available_models.len() > 0 {
            self.selected_model = Some(self.available_models[0].name.clone());
        }
        self.awaiting_response = false;
        ChatEffect::Nothing
    }
}

/// The fallback catalog shown when no provider could list any model: the
/// built-in default model.
pub fn fallback_models() -> (r: Vec<ModelInfo>)
    ensures
        r@.len() == 1,
        r@[0].name@ == "gpt-4o-mini"@ && r@[0].id@ == "gpt-4o-mini"@ && r@[0].client
            == Clients::OpenAI,
{
    let mut r: Vec<ModelInfo> = Vec::new();
    r.push(
        ModelInfo {
            name: "gpt-4o-mini".to_owned(),
            id: "gpt-4o-mini".to_owned(),
            client: Clients::OpenAI,
        },
    );
    r
}

/// The neutral completion request one send builds: every chat line as a
/// transcript message, the chosen model, and the advertised tools.
pub fn build_completion_request(
    messages: &Vec<ChatMessage>,
    model: String,
    tools: Vec<Tool>,
) -> (r: CompletionRequest)
    ensures
        r.model == model,
        r.messages@.len() == messages@.len(),
        forall|k: int|
            0 <= k < messages@.len() ==> {
                &&& (#[trigger] r.messages@[k]).role == (match messages@[k].sender {
                    Sender::User => Role::User,
                    Sender::Bot => Role::Assistant,
                })
                &&& r.messages@[k].content@.len() == 1
                &&& r.messages@[k].content@[0].spec_as_text() == Some(messages@[k].content@)
            },
        r.tools matches Some(ts) && ts@ == tools@,
{
    let mut converted: Vec<Message> = Vec::new();
    let mut i: usize = 0;
    while i < messages.len()
        invariant
            i <= messages@.len(),
            converted@.len() == i,
            forall|k: int|
                0 <= k < i ==> {
                    &&& (#[trigger] converted@[k]).role == (match messages@[k].sender {
                        Sender::User => Role::User,
                        Sender::Bot => Role::Assistant,
                    })
                    &&& converted@[k].content@.len() == 1
                    &&& converted@[k].content@[0].spec_as_text() == Some(messages@[k].content@)
                },
        decreases messages@.len() - i,
    {
        converted.push(messages[i].to_message());
        i += 1;
    }
    CompletionRequest { model, messages: converted, tools: Some(tools) }
}

/// The synthetic reply a failed completion call produces: no choices, the
/// error's text as the object tag. Folding it back in yields the visible
/// error notice, so the conversation is never silently stuck.
pub fn error_response(err: &ApiError) -> (r: CompletionResponse)
    ensures
        r.id@ == "error"@,
        r.object@ == err.text(),
        r.created == 0u64,
        r.model@ == Seq::<char>::empty(),
        r.choices@.len() == 0,
{
    CompletionResponse {
        id: "error".to_owned(),
        object: err.message().clone(),
        created: 0,
        model: String::new(),
        choices: Vec::new(),
    }
}

/// A fresh copy of the chat lines, for handing to a completion task.
fn clone_chat_messages(v: &Vec<ChatMessage>) -> (r: Vec<ChatMessage>)
    ensures
        r@ == v@,
{
    let mut r: Vec<ChatMessage> = Vec::new();
    let mut i: usize = 0;
    while i < v.len()
        invariant
            i <= v@.len(),
            r@ == v@.take(i as int),
        decreases v@.len() - i,
    {
        r.push(v[i].clone());
        proof {
            assert(v@.take(i + 1) =~= v@.take(i as int).push(v@[i as int]));
        }
        i += 1;
    }
    proof {
        assert(v@.take(v@.len() as int) =~= v@);
    }
    r
}

} // verus!
