//! The applet's controller: what it holds, how each message changes it, and what it shows.

use crate::config::Config;
use crate::memory::{percent_text, MemorySnapshot};
use crate::popup::{PopupRequest, PopupState, WindowHandle};
use crate::reader::read_memory;
use vstd::prelude::*;

verus! {

/// The identifier under which the applet registers with the desktop.
pub const APP_ID: &'static str = "another.lusitano.AppletMemory";

/// What the controller reacts to.
#[derive(Debug, Clone, Copy, PartialEq, Eq, Structural)]
pub enum Message {
    /// The panel's button was pressed: open the popup, or close the open one.
    TogglePopup,
    /// The window system reports that the surface with this handle was closed.
    PopupClosed(WindowHandle),
    /// The refresh timer fired: read the memory statistics again.
    UpdateMemory,
}

/// What the controller asks of the window system in answer to a message.
#[derive(Debug, Clone, Copy, PartialEq, Eq)]
pub enum Command {
    /// Nothing is asked.
    Nothing,
    /// Create a popup as the request says.
    OpenPopup(PopupRequest),
    /// Destroy the popup with this handle.
    ClosePopup(WindowHandle),
}

/// What the panel surface shows: a label, and beside it a button.
#[derive(Debug, PartialEq, Eq)]
pub struct PanelView {
    /// The text of the label.
    pub text: String,
    /// The message that a press of the button sends.
    pub on_press: Message,
}

/// A recurring timer: every `every_seconds` seconds it sends `message`.
#[derive(Debug, Clone, Copy, PartialEq, Eq)]
pub struct Subscription {
    /// The period of the timer in seconds.
    pub every_seconds: u64,
    /// The message that each tick sends.
    pub message: Message,
}

/// Everything the controller holds, as plain values.
#[derive(Debug, Clone, Copy, PartialEq, Eq, Structural)]
pub struct State {
    /// Whether the popup is open, and under which handle.
    pub popup: PopupState,
    /// The latest snapshot of the memory statistics.
    pub memory: MemorySnapshot,
    /// The settings that the applet started with.
    pub config: Config,
    /// How many popup handles were handed out so far: the handles 1 to `issued`.
    pub issued: u64,
}

impl State {
    /// The state of a controller that starts with `memory` and `config`: no popup is open and no
    /// handle was handed out.
    pub open spec fn started(memory: MemorySnapshot, config: Config) -> State {
        State { popup: PopupState::Closed, memory, config, issued: 0 }
    }

    /// The snapshot that a controller starts with when the first reading gave `reading`: the
    /// snapshot read, or the empty one when there is none.
    pub open spec fn initial_memory(reading: Option<MemorySnapshot>) -> MemorySnapshot {
        match reading {
            Some(memory) => memory,
            None => MemorySnapshot::spec_empty(),
        }
    }

    /// Whether `handle` was handed out to a popup at some time up to now.
    pub open spec fn has_issued(self, handle: WindowHandle) -> bool {
        1 <= handle.0 <= self.issued
    }

    /// Whether every number has been handed out, so that no new handle is left.
    pub open spec fn exhausted(self) -> bool {
        self.issued == u64::MAX
    }

    /// The handle that the next popup gets.
    pub open spec fn fresh_handle(self) -> WindowHandle
        recommends
            !self.exhausted(),
    {
        WindowHandle((self.issued + 1) as u64)
    }

    /// The handle of an open popup is one that was handed out.
    pub open spec fn wf(self) -> bool {
        self.popup matches PopupState::Open(handle) ==> self.has_issued(handle)
    }

    /// The state after the button was pressed. An open popup is closed. With no popup open, one
    /// is opened under a fresh handle; only when no handle is left does the state stay as it is.
    pub open spec fn toggled(self) -> State {
        match self.popup {
            PopupState::Open(_) => State { popup: PopupState::Closed, ..self },
            PopupState::Closed => if self.exhausted() {
                self
            } else {
                State {
                    popup: PopupState::Open(self.fresh_handle()),
                    issued: (self.issued + 1) as u64,
                    ..self
                }
            },
        }
    }

    /// The state after the window system reported that surface `id` was closed: the popup is
    /// closed if it is the one that is tracked, and nothing changes otherwise.
    pub open spec fn closed_by(self, id: WindowHandle) -> State {
        if self.popup == PopupState::Open(id) {
            State { popup: PopupState::Closed, ..self }
        } else {
            self
        }
    }

    /// The state after a reading of the memory statistics: a snapshot read replaces the one
    /// held, and without one the snapshot held stays.
    pub open spec fn refreshed(self, reading: Option<MemorySnapshot>) -> State {
        match reading {
            Some(memory) => State { memory, ..self },
            None => self,
        }
    }

    /// The state after `message`, where `reading` is what the reading of the memory statistics
    /// gave that a timer tick makes. Only a timer tick looks at `reading`.
    pub open spec fn next(self, message: Message, reading: Option<MemorySnapshot>) -> State {
        match message {
            Message::TogglePopup => self.toggled(),
            Message::PopupClosed(id) => self.closed_by(id),
            Message::UpdateMemory => self.refreshed(reading),
        }
    }

    /// What `message` asks of the window system in this state: a press of the button asks to
    /// destroy the open popup or to create one, anchored to the panel, under the fresh handle.
    /// Nothing else asks for anything.
    pub open spec fn command(self, message: Message) -> Command {
        match message {
            Message::TogglePopup => match self.popup {
                PopupState::Open(handle) => Command::ClosePopup(handle),
                PopupState::Closed => if self.exhausted() {
                    Command::Nothing
                } else {
                    Command::OpenPopup(PopupRequest::spec_anchored(self.fresh_handle()))
                },
            },
            Message::PopupClosed(_) => Command::Nothing,
            Message::UpdateMemory => Command::Nothing,
        }
    }

    /// The text of the panel's label in this state.
    pub open spec fn label(self) -> Seq<char> {
        percent_text(self.memory.spec_percentage())
    }

    /// The state after the messages of `events` in turn, each with what the reading of the
    /// memory statistics gave at that moment.
    pub open spec fn after(self, events: Seq<(Message, Option<MemorySnapshot>)>) -> State
        decreases events.len(),
    {
        if events.len() == 0 {
            self
        } else {
            self.after(events.drop_last()).next(events.last().0, events.last().1)
        }
    }
}

/// The controller of the applet. It owns the latest memory snapshot and the state of the popup
/// for as long as the applet runs.
pub struct App {
    state: State,
}

impl App {
    #[verifier::type_invariant]
    closed spec fn inv(self) -> bool {
        self.state.wf()
    }

    /// What the controller holds.
    pub closed spec fn spec_state(&self) -> State {
        self.state
    }

    /// What the controller holds.
    #[verifier::when_used_as_spec(spec_state)]
    pub fn state(&self) -> (state: State)
        ensures
            state == self.spec_state(),
            state.wf(),
    {
        proof {
            use_type_invariant(self);
        }
        self.state
    }

    /// Makes a controller from a snapshot that was read already and the settings that were
    /// loaded. No popup is open.
    pub fn new(memory: MemorySnapshot, config: Config) -> (app: App)
        ensures
            app.state() == State::started(memory, config),
    {
        App { state: State { popup: PopupState::Closed, memory, config, issued: 0 } }
    }

    /// Makes a controller from what the first reading of the memory statistics gave. Without a
    /// snapshot it starts with the empty one, and shows 0 percent until a reading succeeds.
    pub fn from_reading(reading: Option<MemorySnapshot>, config: Config) -> (app: App)
        ensures
            app.state() == State::started(State::initial_memory(reading), config),
    {
        match reading {
            Some(memory) => App::new(memory, config),
            None => App::new(MemorySnapshot::empty(), config),
        }
    }

    /// Starts the applet: reads the memory statistics once, so that the first view shows a real
    /// value, and makes the controller with them and `config`.
    ///
    /// What the snapshot holds depends on the machine. All else is as `State::started` says.
    pub fn init(config: Config) -> (app: App)
        ensures
            app.state() == State::started(app.state().memory, config),
    {
        App::from_reading(read_memory(), config)
    }

    /// The timer that drives the refresh: every `refresh_time` seconds of the settings it sends
    /// `Message::UpdateMemory`. The period is that of the settings at start, for good.
    pub fn subscription(&self) -> (timer: Subscription)
        ensures
            timer.every_seconds == self.state().config.refresh_time,
            timer.message == Message::UpdateMemory,
    {
        Subscription { every_seconds: self.state.config.refresh_time, message: Message::UpdateMemory }
    }

    /// The message for the window system's report that surface `id` was closed.
    pub fn on_close_requested(&self, id: WindowHandle) -> (message: Option<Message>)
        ensures
            message == Some(Message::PopupClosed(id)),
    {
        Some(Message::PopupClosed(id))
    }

    /// What the panel shows: the used share of the snapshot held as a label such as `50%`, and a
    /// button whose press sends `Message::TogglePopup`.
    pub fn view(&self) -> (panel: PanelView)
        ensures
            panel.text@ == self.state().label(),
            panel.on_press == Message::TogglePopup,
    {
        PanelView { text: self.state.memory.label(), on_press: Message::TogglePopup }
    }

    /// Reacts to `message`, where `reading` is what a reading of the memory statistics gave.
    /// The controller moves to `State::next` and returns `State::command`.
    pub fn apply(&mut self, message: Message, reading: Option<MemorySnapshot>) -> (command:
        Command)
        ensures
            final(self).state() == old(self).state().next(message, reading),
            command == old(self).state().command(message),
    {
        proof {
            use_type_invariant(&*self);
        }
        match message {
            Message::TogglePopup => {
                match self.state.popup {
                    PopupState::Open(handle) => {
                        self.state.popup = PopupState::Closed;
                        Command::ClosePopup(handle)
                    },
                    PopupState::Closed => {
                        if self.state.issued == u64::MAX {
                            Command::Nothing
                        } else {
                            let handle = WindowHandle(self.state.issued + 1);
                            self.state = State {
                                popup: PopupState::Open(handle),
                                issued: self.state.issued + 1,
                                ..self.state
                            };
                            Command::OpenPopup(PopupRequest::anchored(handle))
                        }
                    },
                }
            },
            Message::PopupClosed(id) => {
                match self.state.popup {
                    PopupState::Open(handle) => {
                        if handle.0 == id.0 {
                            self.state.popup = PopupState::Closed;
                        }
                    },
                    PopupState::Closed => {},
                }
                Command::Nothing
            },
            Message::UpdateMemory => {
                match reading {
                    Some(memory) => {
                        self.state.memory = memory;
                    },
                    None => {},
                }
                Command::Nothing
            },
        }
    }

    /// Reacts to `message`. A timer tick reads the memory statistics of the machine; the other
    /// messages read nothing. The controller then moves as `apply` says.
    ///
    /// What a reading gives depends on the machine, so of a timer tick the contract says what
    /// holds for every reading.
    pub fn update(&mut self, message: Message) -> (command: Command)
        ensures
            command == old(self).state().command(message),
            message !is UpdateMemory ==> final(self).state() == old(self).state().next(
                message,
                None,
            ),
            message is UpdateMemory ==> final(self).state() == (State {
                memory: final(self).state().memory,
                ..old(self).state()
            }),
            exists|reading: Option<MemorySnapshot>|
                final(self).state() == #[trigger] old(self).state().next(message, reading),
    {
        let reading = match message {
            Message::UpdateMemory => read_memory(),
            _ => None,
        };
        self.apply(message, reading)
    }
}

} // verus!
