//! The state of the running overlay and the operations that triggers from
//! outside (hotkey, tray menu, chat panel) perform on it.

use vstd::prelude::*;
use crate::exchange::{
    advance_exchange, build_request, failure_view, success_view, verdict_of, ChatConfig,
    ChatResponse, ChatResponseView, ExchangeEvent, ExchangeStep, InferenceRequest, HISTORY_WINDOW,
    MODEL_NAME, SYSTEM_PROMPT,
};
use crate::menu::{menu_command_of, parse_menu_item, MenuCommand};
use crate::message::{views_of, MessageView, Role};
use crate::mode::InteractionMode;
use crate::transcript::{window_of, Transcript};

verus! {

/// The edge length, in pixels, that the character starts out with.
pub const DEFAULT_SIZE: u32 = 200;

/// A change of state that the presentation layer is told about.
#[derive(Debug, Clone, Copy, PartialEq, Eq, Structural)]
pub enum Notification {
    /// The window is now in this mode.
    ModeChanged(InteractionMode),
    /// The character now has this edge length.
    SizeChanged(u32),
}

impl Notification {
    /// The name of the event that carries the notification.
    pub open spec fn event_name_text(self) -> Seq<char> {
        match self {
            Notification::ModeChanged(_) => "interaction-mode-changed"@,
            Notification::SizeChanged(_) => "character-size-changed"@,
        }
    }

    /// The name of the event that carries the notification.
    pub fn event_name(&self) -> (name: &'static str)
        ensures
            name@ == self.event_name_text(),
    {
        match self {
            Notification::ModeChanged(_) => "interaction-mode-changed",
            Notification::SizeChanged(_) => "character-size-changed",
        }
    }
}

/// What the global hotkey did.
#[derive(Debug, Clone, Copy, PartialEq, Eq, Structural)]
pub enum HotkeyState {
    /// The keys went down.
    Pressed,
    /// The keys came up again.
    Released,
}

/// What the caller owes the outside world after a trigger.
#[derive(Debug, Clone, Copy, PartialEq, Eq, Structural)]
pub enum Effect {
    /// Publish this notification.
    Notify(Notification),
    /// End the program.
    Quit,
    /// Nothing changed and nothing is to be done.
    Nothing,
}

/// What the state holds, apart from how the transcript is stored.
pub struct AppStateView {
    pub interaction_mode: InteractionMode,
    pub character_size: u32,
    pub chat_history: Seq<MessageView>,
}

/// Mode, size and transcript of the running overlay.
pub struct AppState {
    pub interaction_mode: InteractionMode,
    pub character_size: u32,
    pub chat_history: Transcript,
}

impl View for AppState {
    type V = AppStateView;

    open spec fn view(&self) -> AppStateView {
        AppStateView {
            interaction_mode: self.interaction_mode,
            character_size: self.character_size,
            chat_history: self.chat_history@,
        }
    }
}

/// The log after a user has submitted `text`.
pub open spec fn history_after_submit(history: Seq<MessageView>, text: Seq<char>) -> Seq<
    MessageView,
> {
    history.push(MessageView { role: Role::User, content: text })
}

/// The log after a chat turn has ended with `response`: a reply is added
/// as the assistant's message, a failure adds nothing.
pub open spec fn history_after_reply(history: Seq<MessageView>, response: ChatResponseView) -> Seq<
    MessageView,
> {
    match response.response {
        Some(reply) if response.success => history.push(
            MessageView { role: Role::Assistant, content: reply },
        ),
        _ => history,
    }
}

/// The state after the menu command `command`.
pub open spec fn state_after_command(state: AppStateView, command: MenuCommand) -> AppStateView {
    match command {
        MenuCommand::SetSize(size) => AppStateView { character_size: size, ..state },
        MenuCommand::SetMode(mode) => AppStateView { interaction_mode: mode, ..state },
        MenuCommand::Quit => state,
        MenuCommand::Ignore => state,
    }
}

/// What is owed to the outside world after the menu command `command`.
pub open spec fn effect_of_command(command: MenuCommand) -> Effect {
    match command {
        MenuCommand::SetSize(size) => Effect::Notify(Notification::SizeChanged(size)),
        MenuCommand::SetMode(mode) => Effect::Notify(Notification::ModeChanged(mode)),
        MenuCommand::Quit => Effect::Quit,
        MenuCommand::Ignore => Effect::Nothing,
    }
}

/// A chat turn that succeeds adds two entries to the log and takes none
/// away: the user's text directly after what the log held before, and the
/// reply last, behind whatever other turns (`between`) added in the
/// meantime. The order of all earlier entries stays.
pub proof fn lemma_successful_turn(
    history: Seq<MessageView>,
    text: Seq<char>,
    between: Seq<MessageView>,
    reply: Seq<char>,
)
    ensures
        ({
            let submitted = history_after_submit(history, text);
            let done = history_after_reply(submitted + between, success_view(reply));
            &&& done.len() == history.len() + between.len() + 2
            &&& history.is_prefix_of(done)
            &&& (submitted + between).is_prefix_of(done)
            &&& done[history.len() as int] == (MessageView { role: Role::User, content: text })
            &&& done.last() == (MessageView { role: Role::Assistant, content: reply })
            &&& done == submitted + between + seq![
                MessageView { role: Role::Assistant, content: reply },
            ]
        }),
{
    let submitted = history_after_submit(history, text);
    let done = history_after_reply(submitted + between, success_view(reply));
    assert(done =~= submitted + between + seq![
        MessageView { role: Role::Assistant, content: reply },
    ]);
}

/// A chat turn that fails leaves the log as the submission left it: the
/// user's text is its last entry and no reply is added.
pub proof fn lemma_failed_turn(history: Seq<MessageView>, text: Seq<char>, reason: Seq<char>)
    ensures
        history_after_reply(history_after_submit(history, text), failure_view(reason))
            == history_after_submit(history, text),
        history_after_submit(history, text).last() == (MessageView {
            role: Role::User,
            content: text,
        }),
        history.is_prefix_of(history_after_submit(history, text)),
{
}

/// Of all events that end an exchange, only a decoded message adds to the
/// log; every other one ends it with a failure that carries an error text.
pub proof fn lemma_only_a_decoded_message_is_recorded(
    event: ExchangeEvent,
    history: Seq<MessageView>,
)
    ensures
        verdict_of(event) matches Some(verdict) ==> {
            &&& verdict.wf()
            &&& verdict.success <==> (event matches ExchangeEvent::BodyDecoded {
                content: Some(_),
            })
            &&& !verdict.success ==> history_after_reply(history, verdict) == history
            &&& verdict.success ==> history_after_reply(history, verdict).len() == history.len()
                + 1
        },
{
}

impl AppState {
    /// The state at startup: interactive, the default size, nothing said.
    pub fn new() -> (state: AppState)
        ensures
            state@ == (AppStateView {
                interaction_mode: InteractionMode::Interactive,
                character_size: DEFAULT_SIZE,
                chat_history: Seq::<MessageView>::empty(),
            }),
    {
        AppState {
            interaction_mode: InteractionMode::Interactive,
            character_size: DEFAULT_SIZE,
            chat_history: Transcript::new(),
        }
    }

    /// The current mode.
    pub fn get_mode(&self) -> (mode: InteractionMode)
        ensures
            mode == self@.interaction_mode,
    {
        self.interaction_mode
    }

    /// Puts the window into `mode`. The notification returned carries the
    /// mode that was stored.
    pub fn set_mode(&mut self, mode: InteractionMode) -> (notice: Notification)
        ensures
            final(self)@ == (AppStateView { interaction_mode: mode, ..old(self)@ }),
            notice == Notification::ModeChanged(mode),
    {
        self.interaction_mode = mode;
        Notification::ModeChanged(mode)
    }

    /// Moves the window to the next mode of the cycle and returns that mode.
    pub fn advance_mode(&mut self) -> (mode: InteractionMode)
        ensures
            mode == old(self)@.interaction_mode.successor(),
            final(self)@ == (AppStateView { interaction_mode: mode, ..old(self)@ }),
    {
        let mode = self.interaction_mode.next();
        self.interaction_mode = mode;
        mode
    }

    /// The current edge length of the character.
    pub fn get_size(&self) -> (size: u32)
        ensures
            size == self@.character_size,
    {
        self.character_size
    }

    /// Gives the character the edge length `size`, whatever it is. The
    /// notification returned carries the size that was stored.
    pub fn set_size(&mut self, size: u32) -> (notice: Notification)
        ensures
            final(self)@ == (AppStateView { character_size: size, ..old(self)@ }),
            notice == Notification::SizeChanged(size),
    {
        self.character_size = size;
        Notification::SizeChanged(size)
    }

    /// A press of the global hotkey: the window moves on to the next mode.
    pub fn handle_hotkey_press(&mut self) -> (notice: Notification)
        ensures
            final(self)@ == (AppStateView {
                interaction_mode: old(self)@.interaction_mode.successor(),
                ..old(self)@
            }),
            notice == Notification::ModeChanged(old(self)@.interaction_mode.successor()),
    {
        let mode = self.advance_mode();
        Notification::ModeChanged(mode)
    }

    /// An event of the global hotkey: a press moves the window on to the
    /// next mode, a release does nothing.
    pub fn handle_hotkey(&mut self, event: HotkeyState) -> (effect: Effect)
        ensures
            event == HotkeyState::Pressed ==> final(self)@ == (AppStateView {
                interaction_mode: old(self)@.interaction_mode.successor(),
                ..old(self)@
            }) && effect == Effect::Notify(
                Notification::ModeChanged(old(self)@.interaction_mode.successor()),
            ),
            event == HotkeyState::Released ==> final(self)@ == old(self)@ && effect
                == Effect::Nothing,
    {
        match event {
            HotkeyState::Pressed => Effect::Notify(self.handle_hotkey_press()),
            HotkeyState::Released => Effect::Nothing,
        }
    }

    /// A selection in the tray menu: a size preset or a mode is stored and
    /// reported, `quit` is handed on, anything else changes nothing.
    pub fn handle_menu_selection(&mut self, item_id: &str) -> (effect: Effect)
        ensures
            final(self)@ == state_after_command(old(self)@, menu_command_of(item_id@)),
            effect == effect_of_command(menu_command_of(item_id@)),
    {
        match parse_menu_item(item_id) {
            MenuCommand::SetSize(size) => Effect::Notify(self.set_size(size)),
            MenuCommand::SetMode(mode) => Effect::Notify(self.set_mode(mode)),
            MenuCommand::Quit => Effect::Quit,
            MenuCommand::Ignore => Effect::Nothing,
        }
    }

    /// Opens a chat turn under the settings `config`: the user's text goes
    /// into the transcript, and the request returned carries the system
    /// prompt and the latest entries of the transcript, the new one among
    /// them.
    pub fn begin_chat_with(
        &mut self,
        user_text: String,
        config: &ChatConfig,
    ) -> (request: InferenceRequest)
        ensures
            final(self)@ == (AppStateView {
                chat_history: history_after_submit(old(self)@.chat_history, user_text@),
                ..old(self)@
            }),
            views_of(request.messages@) == window_of(
                final(self)@.chat_history,
                config.history_window as nat,
                config.system_prompt@,
            ),
            request.messages@.len() == window_of(
                final(self)@.chat_history,
                config.history_window as nat,
                config.system_prompt@,
            ).len(),
            request.messages@.len() <= config.history_window + 1,
            forall|at: int|
                0 <= at < request.messages@.len() ==> (#[trigger] request.messages@[at])@
                    == window_of(
                    final(self)@.chat_history,
                    config.history_window as nat,
                    config.system_prompt@,
                )[at],
            request.model@ == config.model@,
            !request.stream,
    {
        self.chat_history.append(Role::User, user_text);
        let prompt = self.chat_history.window(
            config.history_window,
            config.system_prompt.as_str(),
        );
        build_request(config.model.as_str(), prompt)
    }

    /// Opens a chat turn under the fixed settings: the user's text goes
    /// into the transcript, and the request returned carries the fixed
    /// system prompt and the last ten entries of the transcript, the new one
    /// among them.
    pub fn begin_chat(&mut self, user_text: String) -> (request: InferenceRequest)
        ensures
            final(self)@ == (AppStateView {
                chat_history: history_after_submit(old(self)@.chat_history, user_text@),
                ..old(self)@
            }),
            views_of(request.messages@) == window_of(
                final(self)@.chat_history,
                HISTORY_WINDOW as nat,
                SYSTEM_PROMPT@,
            ),
            request.messages@.len() == window_of(
                final(self)@.chat_history,
                HISTORY_WINDOW as nat,
                SYSTEM_PROMPT@,
            ).len(),
            request.messages@.len() <= HISTORY_WINDOW + 1,
            forall|at: int|
                0 <= at < request.messages@.len() ==> (#[trigger] request.messages@[at])@
                    == window_of(
                    final(self)@.chat_history,
                    HISTORY_WINDOW as nat,
                    SYSTEM_PROMPT@,
                )[at],
            request.model@ == MODEL_NAME@,
            !request.stream,
    {
        let config = ChatConfig::default();
        self.begin_chat_with(user_text, &config)
    }

    /// Closes a chat turn that ended with `response`: a reply goes into the
    /// transcript as the assistant's message, a failure leaves it as it is.
    pub fn record_reply(&mut self, response: &ChatResponse)
        ensures
            final(self)@ == (AppStateView {
                chat_history: history_after_reply(old(self)@.chat_history, response@),
                ..old(self)@
            }),
    {
        if response.success {
            match &response.response {
                Some(reply) => {
                    self.chat_history.append(Role::Assistant, reply.clone());
                },
                None => {},
            }
        }
    }

    /// Takes one event of the exchange that a chat turn has under way. Where
    /// the event ends the exchange, its response is returned and a reply is
    /// recorded; where it does not, the state is left as it is and the
    /// caller is sent on to the body of the response.
    pub fn handle_exchange_event(&mut self, event: ExchangeEvent) -> (step: ExchangeStep)
        ensures
            verdict_of(event) is None ==> step is ReadBody && final(self)@ == old(self)@,
            verdict_of(event) matches Some(verdict) ==> (step matches ExchangeStep::Finished(
                response,
            ) && response@ == verdict && final(self)@ == (AppStateView {
                chat_history: history_after_reply(old(self)@.chat_history, verdict),
                ..old(self)@
            })),
    {
        let step = advance_exchange(event);
        match &step {
            ExchangeStep::Finished(response) => {
                self.record_reply(response);
            },
            ExchangeStep::ReadBody => {},
        }
        step
    }
}

impl Default for AppState {
    fn default() -> (state: AppState)
        ensures
            state@ == (AppStateView {
                interaction_mode: InteractionMode::Interactive,
                character_size: DEFAULT_SIZE,
                chat_history: Seq::<MessageView>::empty(),
            }),
    {
        AppState::new()
    }
}

} // verus!
