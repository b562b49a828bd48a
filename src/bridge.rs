//! The interaction bridge: what the user is shown and asked while the
//! driver runs, and what goes back to the driver.
//!
//! Like the driver it decides and the caller acts: each `step` takes an
//! event (the user confirmed, typed a line, or the driver sent a notice) and
//! returns the new contents of the two cells that the rendering loop reads,
//! plus the reply owed to the driver.
use vstd::prelude::*;
use tokio::sync::oneshot::Sender;
use crate::client::AuthPrompt;
use crate::driver::StateNotice;

verus! {

/// tokio's single-use `oneshot::Sender`, carried through as an opaque value.
#[verifier::external_type_specification]
#[verifier::external_body]
#[verifier::reject_recursive_types(T)]
pub struct ExSender<T>(Sender<T>);

/// Whether an input line goes with the message, and how it is echoed.
#[derive(Clone, Copy, Debug, PartialEq, Eq, Structural)]
pub enum UiDisplayInputVisibility {
    NoInput { show_confirm_message: bool },
    Hidden,
    Shown,
}

/// What the rendering loop shows.
#[derive(Debug)]
pub enum UiDisplayState {
    Empty,
    Message { message: String, show_input: UiDisplayInputVisibility },
    Loading,
}

impl Default for UiDisplayState {
    fn default() -> (r: UiDisplayState)
        ensures
            r is Empty,
    {
        UiDisplayState::Empty
    }
}

/// Which kind of input the rendering loop collects.
#[derive(Clone, Copy, Debug, PartialEq, Eq, Structural)]
pub enum UiInputStateType {
    NoInput,
    Confirm,
    Text,
}

/// The input cell: the kind of input, with the single-use channel that the
/// rendering loop completes with it.
pub enum UiInputState {
    NoInput,
    Confirm { notifier: Sender<()> },
    Text { responder: Sender<String> },
}

impl Default for UiInputState {
    fn default() -> (r: UiInputState)
        ensures
            r is NoInput,
    {
        UiInputState::NoInput
    }
}

impl UiInputState {
    /// The kind of input, without its channel.
    pub fn get_type(&self) -> (r: UiInputStateType)
        ensures
            r == match self {
                UiInputState::NoInput => UiInputStateType::NoInput,
                UiInputState::Confirm { .. } => UiInputStateType::Confirm,
                UiInputState::Text { .. } => UiInputStateType::Text,
            },
    {
        match self {
            UiInputState::NoInput => UiInputStateType::NoInput,
            UiInputState::Confirm { .. } => UiInputStateType::Confirm,
            UiInputState::Text { .. } => UiInputStateType::Text,
        }
    }
}

/// Where the bridge stands.
#[derive(Clone, Copy, Debug, PartialEq, Eq, Structural)]
pub enum BridgePhase {
    /// Not started.
    Idle,
    /// Waiting for the first confirmation, so that a frame is drawn first.
    AwaitingStart,
    /// Waiting for the username to be typed.
    AwaitingUsername,
    /// Waiting for the driver's next notice.
    AwaitingState,
    /// Waiting for the answer to be typed.
    AwaitingText,
    /// Waiting for the user to acknowledge an error.
    AwaitingAcknowledgement,
    /// The command was handed over.
    Finished,
}

/// What happened since the last step.
pub enum BridgeEvent {
    Start,
    Confirmed,
    Text(String),
    State(StateNotice),
}

/// What the driver is owed.
pub enum BridgeReply {
    Nothing,
    Username(String),
    Answer(Option<String>),
    Command(Vec<String>),
}

/// The result of a step: new cell contents (`None` keeps the old), and the
/// reply to send.
pub struct BridgeUpdate {
    pub display: Option<UiDisplayState>,
    pub input: Option<UiInputStateType>,
    pub reply: BridgeReply,
}

/// The message shown when the username is asked for.
pub open spec fn is_username_request(d: Option<UiDisplayState>) -> bool {
    match d {
        Some(UiDisplayState::Message { message, show_input }) => message@ == "Username:"@
            && show_input == UiDisplayInputVisibility::Shown,
        _ => false,
    }
}

/// An update that shows `display`, sets `input` and sends `reply`.
pub open spec fn update(
    display: Option<UiDisplayState>,
    input: Option<UiInputStateType>,
    reply: BridgeReply,
) -> BridgeUpdate {
    BridgeUpdate { display, input, reply }
}

/// One step of the bridge, configured with `user` (a fixed username, if
/// any) and `command`: in phase `p`, event `e` leads to phase `q` and
/// update `u`. An event that the phase does not wait for changes nothing.
pub open spec fn bridge_steps(
    user: Option<String>,
    command: Vec<String>,
    p: BridgePhase,
    e: BridgeEvent,
    q: BridgePhase,
    u: BridgeUpdate,
) -> bool {
    match (p, e) {
        (BridgePhase::Idle, BridgeEvent::Start) => q == BridgePhase::AwaitingStart
            && u == update(None, Some(UiInputStateType::Confirm), BridgeReply::Nothing),
        (BridgePhase::AwaitingStart, BridgeEvent::Confirmed) => match user {
            Some(name) => q == BridgePhase::AwaitingState && u == update(
                Some(UiDisplayState::Loading),
                Some(UiInputStateType::NoInput),
                BridgeReply::Username(name),
            ),
            None => q == BridgePhase::AwaitingUsername && is_username_request(u.display)
                && u.input == Some(UiInputStateType::Text) && u.reply is Nothing,
        },
        (BridgePhase::AwaitingUsername, BridgeEvent::Text(name)) => q == BridgePhase::AwaitingState
            && u == update(
            Some(UiDisplayState::Loading),
            Some(UiInputStateType::NoInput),
            BridgeReply::Username(name),
        ),
        (BridgePhase::AwaitingState, BridgeEvent::State(StateNotice::Prompt(prompt))) => match prompt {
            AuthPrompt::Input { prompt, secret } => q == BridgePhase::AwaitingText && u == update(
                Some(
                    UiDisplayState::Message {
                        message: prompt,
                        show_input: if secret {
                            UiDisplayInputVisibility::Hidden
                        } else {
                            UiDisplayInputVisibility::Shown
                        },
                    },
                ),
                Some(UiInputStateType::Text),
                BridgeReply::Nothing,
            ),
            AuthPrompt::Info { note } => q == BridgePhase::AwaitingState && u == update(
                Some(
                    UiDisplayState::Message {
                        message: note,
                        show_input: UiDisplayInputVisibility::NoInput { show_confirm_message: false },
                    },
                ),
                None,
                BridgeReply::Answer(None),
            ),
            AuthPrompt::Error { note } => q == BridgePhase::AwaitingAcknowledgement && u == update(
                Some(
                    UiDisplayState::Message {
                        message: note,
                        show_input: UiDisplayInputVisibility::NoInput { show_confirm_message: true },
                    },
                ),
                Some(UiInputStateType::Confirm),
                BridgeReply::Nothing,
            ),
        },
        (BridgePhase::AwaitingText, BridgeEvent::Text(answer)) => q == BridgePhase::AwaitingState
            && u == update(None, Some(UiInputStateType::NoInput), BridgeReply::Answer(Some(answer))),
        (BridgePhase::AwaitingAcknowledgement, BridgeEvent::Confirmed) => q == BridgePhase::AwaitingState
            && u == update(None, Some(UiInputStateType::NoInput), BridgeReply::Answer(None)),
        (BridgePhase::AwaitingState, BridgeEvent::State(StateNotice::Success)) => q == BridgePhase::Finished
            && u == update(Some(UiDisplayState::Loading), None, BridgeReply::Command(command)),
        _ => q == p && u == update(None, None, BridgeReply::Nothing),
    }
}

/// The bridge answers each prompt exactly once before it takes the next
/// notice: a notice that comes while a prompt waits on the user changes
/// nothing; a prompt is either answered at once (a note) or moves the bridge
/// to a phase that it leaves only by sending the answer; and the phase that
/// takes notices is entered only by sending the username or an answer.
pub proof fn lemma_one_reply_per_prompt(
    user: Option<String>,
    command: Vec<String>,
    p: BridgePhase,
    e: BridgeEvent,
    q: BridgePhase,
    u: BridgeUpdate,
)
    requires
        bridge_steps(user, command, p, e, q, u),
    ensures
        (p == BridgePhase::AwaitingText || p == BridgePhase::AwaitingAcknowledgement) && e is State
            ==> q == p && u.reply is Nothing,
        p == BridgePhase::AwaitingState && (e matches BridgeEvent::State(StateNotice::Prompt(_))) ==> (
        u.reply is Answer && q == BridgePhase::AwaitingState) || (u.reply is Nothing && (q
            == BridgePhase::AwaitingText || q == BridgePhase::AwaitingAcknowledgement)),
        q == BridgePhase::AwaitingState && p != BridgePhase::AwaitingState ==> u.reply is Answer
            || u.reply is Username,
        u.reply is Answer ==> q == BridgePhase::AwaitingState,
{
}

/// Drives the display and input cells for one login attempt.
pub struct UiManager {
    restricted_user: Option<String>,
    command: Vec<String>,
    phase: BridgePhase,
}

impl UiManager {
    /// The fixed username, if one is configured.
    pub closed spec fn user(self) -> Option<String> {
        self.restricted_user
    }

    /// The command handed over on success.
    pub closed spec fn session_command(self) -> Vec<String> {
        self.command
    }

    /// Where the bridge stands.
    pub closed spec fn current(self) -> BridgePhase {
        self.phase
    }

    /// A bridge that has not started, for a fixed username (if any) and the
    /// command to start on success.
    pub fn new(restricted_user: Option<String>, command: Vec<String>) -> (r: UiManager)
        ensures
            r.user() == restricted_user,
            r.session_command() == command,
            r.current() == BridgePhase::Idle,
    {
        UiManager { restricted_user, command, phase: BridgePhase::Idle }
    }

    /// Where the bridge stands.
    pub fn phase(&self) -> (r: BridgePhase)
        ensures
            r == self.current(),
    {
        self.phase
    }

    /// Takes one event and says what to show and what to send.
    pub fn step(self, event: BridgeEvent) -> (r: (UiManager, BridgeUpdate))
        ensures
            bridge_steps(self.user(), self.session_command(), self.current(), event, r.0.current(), r.1),
            r.0.user() == self.user(),
            r.0.current() != BridgePhase::Finished ==> r.0.session_command() == self.session_command(),
    {
        let UiManager { restricted_user, command, phase } = self;
        let unchanged = BridgeUpdate { display: None, input: None, reply: BridgeReply::Nothing };
        match (phase, event) {
            (BridgePhase::Idle, BridgeEvent::Start) => {
                let u = BridgeUpdate {
                    display: None,
                    input: Some(UiInputStateType::Confirm),
                    reply: BridgeReply::Nothing,
                };
                (UiManager { restricted_user, command, phase: BridgePhase::AwaitingStart }, u)
            },
            (BridgePhase::AwaitingStart, BridgeEvent::Confirmed) => match &restricted_user {
                Some(name) => {
                    let u = BridgeUpdate {
                        display: Some(UiDisplayState::Loading),
                        input: Some(UiInputStateType::NoInput),
                        reply: BridgeReply::Username(name.clone()),
                    };
                    (UiManager { restricted_user, command, phase: BridgePhase::AwaitingState }, u)
                },
                None => {
                    let u = BridgeUpdate {
                        display: Some(
                            UiDisplayState::Message {
                                message: "Username:".to_owned(),
                                show_input: UiDisplayInputVisibility::Shown,
                            },
                        ),
                        input: Some(UiInputStateType::Text),
                        reply: BridgeReply::Nothing,
                    };
                    (UiManager { restricted_user, command, phase: BridgePhase::AwaitingUsername }, u)
                },
            },
            (BridgePhase::AwaitingUsername, BridgeEvent::Text(name)) => {
                let u = BridgeUpdate {
                    display: Some(UiDisplayState::Loading),
                    input: Some(UiInputStateType::NoInput),
                    reply: BridgeReply::Username(name),
                };
                (UiManager { restricted_user, command, phase: BridgePhase::AwaitingState }, u)
            },
            (BridgePhase::AwaitingState, BridgeEvent::State(StateNotice::Prompt(prompt))) => match prompt {
                AuthPrompt::Input { prompt, secret } => {
                    let show_input = if secret {
                        UiDisplayInputVisibility::Hidden
                    } else {
                        UiDisplayInputVisibility::Shown
                    };
                    let u = BridgeUpdate {
                        display: Some(UiDisplayState::Message { message: prompt, show_input }),
                        input: Some(UiInputStateType::Text),
                        reply: BridgeReply::Nothing,
                    };
                    (UiManager { restricted_user, command, phase: BridgePhase::AwaitingText }, u)
                },
                AuthPrompt::Info { note } => {
                    let show_input = UiDisplayInputVisibility::NoInput { show_confirm_message: false };
                    let u = BridgeUpdate {
                        display: Some(UiDisplayState::Message { message: note, show_input }),
                        input: None,
                        reply: BridgeReply::Answer(None),
                    };
                    (UiManager { restricted_user, command, phase: BridgePhase::AwaitingState }, u)
                },
                AuthPrompt::Error { note } => {
                    let show_input = UiDisplayInputVisibility::NoInput { show_confirm_message: true };
                    let u = BridgeUpdate {
                        display: Some(UiDisplayState::Message { message: note, show_input }),
                        input: Some(UiInputStateType::Confirm),
                        reply: BridgeReply::Nothing,
                    };
                    (UiManager { restricted_user, command, phase: BridgePhase::AwaitingAcknowledgement }, u)
                },
            },
            (BridgePhase::AwaitingText, BridgeEvent::Text(answer)) => {
                let u = BridgeUpdate {
                    display: None,
                    input: Some(UiInputStateType::NoInput),
                    reply: BridgeReply::Answer(Some(answer)),
                };
                (UiManager { restricted_user, command, phase: BridgePhase::AwaitingState }, u)
            },
            (BridgePhase::AwaitingAcknowledgement, BridgeEvent::Confirmed) => {
                let u = BridgeUpdate {
                    display: None,
                    input: Some(UiInputStateType::NoInput),
                    reply: BridgeReply::Answer(None),
                };
                (UiManager { restricted_user, command, phase: BridgePhase::AwaitingState }, u)
            },
            (BridgePhase::AwaitingState, BridgeEvent::State(StateNotice::Success)) => {
                let u = BridgeUpdate {
                    display: Some(UiDisplayState::Loading),
                    input: None,
                    reply: BridgeReply::Command(command),
                };
                (UiManager { restricted_user, command: Vec::new(), phase: BridgePhase::Finished }, u)
            },
            (phase, _) => (UiManager { restricted_user, command, phase }, unchanged),
        }
    }
}

} // verus!
