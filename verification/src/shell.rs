//! The application shell: one page of chat and one of settings, with
//! navigation between them. The shell only routes actions to the owning
//! page's state machine and hands that page's effect back out; rendering
//! and the event loop live outside this crate.

use vstd::prelude::*;

use crate::chat;
use crate::chat::{ChatAction, ChatEffect};
use crate::settings;

verus! {

/// The pages the shell can show.
#[derive(Clone, Copy, Debug, PartialEq, Eq, Structural)]
pub enum PageId {
    Chat,
    Settings,
}

impl Default for PageId {
    /// The chat page is shown first.
    fn default() -> (r: Self)
        ensures
            r == PageId::Chat,
    {
        PageId::Chat
    }
}

/// Everything that can happen to the application.
#[derive(Debug)]
pub enum Message {
    Navigate(PageId),
    Chat(ChatAction),
    Settings(settings::Action),
}

/// What the caller must do after an update: nothing, a chat effect to
/// perform, or a request to persist the settings snapshot.
#[derive(Debug)]
pub enum ShellEffect {
    Nothing,
    Chat(ChatEffect),
    PersistSettings,
}

/// The application's whole state.
#[derive(Debug)]
pub struct Ergon {
    pub current_page: PageId,
    pub chat: chat::State,
    pub settings: settings::State,
}

impl Ergon {
    /// A fresh application: the chat page, a chat state that immediately
    /// asks for the model catalog, and default settings.
    pub fn new() -> (r: (Ergon, ShellEffect))
        ensures
            r.0.current_page == PageId::Chat,
            r.0.chat.awaiting_response,
            r.0.chat.messages@ == Seq::<crate::chat::ChatMessage>::empty(),
            r.1 matches ShellEffect::Chat(e) && e is LoadModels,
    {
        let (chat_state, chat_effect) = chat::State::new();
        let state = Ergon {
            current_page: PageId::Chat,
            chat: chat_state,
            settings: settings::State::default(),
        };
        (state, ShellEffect::Chat(chat_effect))
    }
}

/// Build the initial application state and its first effect.
pub fn init() -> (r: (Ergon, ShellEffect))
    ensures
        r.0.current_page == PageId::Chat,
        r.1 matches ShellEffect::Chat(e) && e is LoadModels,
{
    Ergon::new()
}

/// Route one message to the page that owns it. Navigation switches pages
/// and touches nothing else; a chat or settings action drives exactly that
/// page's own transition — [`chat::chat_step`] or
/// [`settings::settings_step`] — on the page's state, and the page's
/// effect is handed back out.
pub fn update(state: &mut Ergon, action: Message) -> (r: ShellEffect)
    ensures
        action matches Message::Navigate(page) ==> final(state).current_page == page && final(state).chat == old(state).chat && final(state).settings == old(state).settings
            && r is Nothing,
        action matches Message::Chat(a) ==> final(state).current_page == old(state).current_page
            && final(state).settings == old(state).settings && (r matches ShellEffect::Chat(e)
            && chat::chat_step(old(state).chat, a, final(state).chat, e)),
        action matches Message::Settings(a) ==> final(state).current_page == old(state).current_page && final(state).chat == old(state).chat
            && settings::settings_step(
            old(state).settings.config,
            a,
            final(state).settings.config,
            r is PersistSettings,
        ) && (r is PersistSettings || r is Nothing),
{
    match action {
        Message::Navigate(page_id) => {
            state.current_page = page_id;
            ShellEffect::Nothing
        },
        Message::Chat(chat_action) => {
            let effect = state.chat.update(chat_action);
            ShellEffect::Chat(effect)
        },
        Message::Settings(settings_action) => {
            let persist = state.settings.update(settings_action);
            if persist {
                ShellEffect::PersistSettings
            } else {
                ShellEffect::Nothing
            }
        },
    }
}

} // verus!
