//! The decisions of a desktop application's event loop.
//!
//! The loop itself belongs to the window system. What it asks at each turn
//! is answered here: what a window event leads to, how long to wait before
//! the next turn, and when to leave.

use vstd::prelude::*;

verus! {

/// The time to wait for new events in `Mode::WaitUntil`, in milliseconds.
pub const WAIT_MILLIS: u64 = 16;

/// The time to sleep between two turns in `Mode::Poll`, in milliseconds.
pub const POLL_SLEEP_MILLIS: u64 = 16;

/// How the loop paces itself.
#[derive(Clone, Copy, Debug, PartialEq, Eq, Hash, Structural)]
pub enum Mode {
    /// Sleep until an event arrives.
    Wait,
    /// Sleep until an event arrives or a fixed time has passed.
    WaitUntil,
    /// Never sleep in the window system; pace by sleeping in the loop.
    Poll,
}

impl Default for Mode {
    fn default() -> (r: Mode)
        ensures
            r == Mode::Poll,
    {
        Mode::Poll
    }
}

/// A key of the keyboard, as far as the loop tells keys apart.
#[derive(Clone, Copy, Debug, PartialEq, Eq, Hash, Structural)]
pub enum Key {
    Digit1,
    Digit2,
    Digit3,
    Digit4,
    Digit5,
    Other,
}

/// An event of the window, as far as the loop tells events apart.
#[derive(Clone, Copy, Debug, PartialEq, Eq, Hash, Structural)]
pub enum WindowEvent {
    CloseRequested,
    Resized { width: u32, height: u32 },
    KeyPressed(Key),
    RedrawRequested,
    Other,
}

/// What the loop does about a window event.
#[derive(Clone, Copy, Debug, PartialEq, Eq, Hash, Structural)]
pub enum WindowAction {
    /// Nothing.
    Ignore,
    /// Report that the window is minimised; the surface keeps its size.
    ReportMinimized,
    /// Resize the surface to the window.
    ResizeSurface,
    /// Show the example with this index.
    ChangeExample(i32),
    /// Announce the frame to the window, render it and ask for the next.
    RenderFrame,
}

/// How the window system is told to wait for the next turn.
#[derive(Clone, Copy, Debug, PartialEq, Eq, Hash, Structural)]
pub enum ControlFlow {
    Wait,
    WaitUntil { millis: u64 },
    Poll,
}

/// What the loop does before it waits for new events.
#[derive(Clone, Copy, Debug, PartialEq, Eq, Structural)]
pub struct WaitDecision {
    /// How long to sleep first, in milliseconds.
    pub sleep_millis: u64,
    /// The control flow to set, if it is to be set at all.
    pub control_flow: Option<ControlFlow>,
    /// Whether to leave the loop.
    pub exit: bool,
}

/// The renderings an application can show.
#[derive(Clone, Copy, Debug, PartialEq, Eq, Hash, Structural)]
pub enum ExampleKind {
    Boids,
    MsaaLine,
    Cube,
    Water,
    Shadow,
    HdrImageView,
}

/// The rendering with the given index; every index beyond the named ones
/// stands for the last.
pub open spec fn example_for_index(index: i32) -> ExampleKind {
    if index == 0 {
        ExampleKind::Boids
    } else if index == 1 {
        ExampleKind::MsaaLine
    } else if index == 2 {
        ExampleKind::Cube
    } else if index == 3 {
        ExampleKind::Water
    } else if index == 4 {
        ExampleKind::Shadow
    } else {
        ExampleKind::HdrImageView
    }
}

/// The index of the example a key stands for: the digit of a digit key,
/// 0 for every other key.
pub open spec fn example_index_for_key(key: Key) -> i32 {
    match key {
        Key::Digit1 => 1,
        Key::Digit2 => 2,
        Key::Digit3 => 3,
        Key::Digit4 => 4,
        Key::Digit5 => 5,
        Key::Other => 0,
    }
}

/// The index of the example a request from the host stands for: the index
/// itself from 1 to 4, else 0.
pub open spec fn example_index_for_request(index: i32) -> i32 {
    if 1 <= index <= 4 {
        index
    } else {
        0
    }
}

impl ExampleKind {
    /// The rendering with the given index.
    pub fn from_index(index: i32) -> (r: ExampleKind)
        ensures
            r == example_for_index(index),
    {
        if index == 0 {
            ExampleKind::Boids
        } else if index == 1 {
            ExampleKind::MsaaLine
        } else if index == 2 {
            ExampleKind::Cube
        } else if index == 3 {
            ExampleKind::Water
        } else if index == 4 {
            ExampleKind::Shadow
        } else {
            ExampleKind::HdrImageView
        }
    }
}

/// The state of the loop.
#[derive(Clone, Copy, Debug, PartialEq, Eq, Structural)]
pub struct LoopState {
    pub mode: Mode,
    /// Whether the last wait ended before its time and must not be set anew.
    pub wait_cancelled: bool,
    pub close_requested: bool,
}

impl LoopState {
    /// What a window event leads to.
    pub open spec fn action_for(event: WindowEvent) -> WindowAction {
        match event {
            WindowEvent::CloseRequested => WindowAction::Ignore,
            WindowEvent::Resized { width, height } => if width == 0 || height == 0 {
                WindowAction::ReportMinimized
            } else {
                WindowAction::ResizeSurface
            },
            WindowEvent::KeyPressed(key) => WindowAction::ChangeExample(example_index_for_key(key)),
            WindowEvent::RedrawRequested => WindowAction::RenderFrame,
            WindowEvent::Other => WindowAction::Ignore,
        }
    }

    /// What the loop does before it waits.
    pub open spec fn wait_decision(self) -> WaitDecision {
        WaitDecision {
            sleep_millis: if self.mode == Mode::Poll {
                POLL_SLEEP_MILLIS
            } else {
                0
            },
            control_flow: match self.mode {
                Mode::Wait => Some(ControlFlow::Wait),
                Mode::WaitUntil => if self.wait_cancelled {
                    None
                } else {
                    Some(ControlFlow::WaitUntil { millis: WAIT_MILLIS })
                },
                Mode::Poll => Some(ControlFlow::Poll),
            },
            exit: self.close_requested,
        }
    }

    /// The state of a loop that has just started, in the given mode.
    pub fn new(mode: Mode) -> (r: LoopState)
        ensures
            r == (LoopState { mode, wait_cancelled: false, close_requested: false }),
    {
        LoopState { mode, wait_cancelled: false, close_requested: false }
    }

    /// Takes note of why the loop woke up: a wait that was cut short counts
    /// only in `Mode::WaitUntil`.
    pub fn new_events(&mut self, wait_was_cancelled: bool)
        ensures
            *final(self) == (LoopState {
                wait_cancelled: wait_was_cancelled && old(self).mode == Mode::WaitUntil,
                ..*old(self)
            }),
    {
        self.wait_cancelled = wait_was_cancelled && self.mode == Mode::WaitUntil;
    }

    /// Takes a window event and says what to do about it. A request to
    /// close is remembered until the loop next waits; nothing else changes
    /// the state.
    pub fn window_event(&mut self, event: WindowEvent) -> (r: WindowAction)
        ensures
            r == Self::action_for(event),
            *final(self) == (LoopState {
                close_requested: old(self).close_requested || event
                    == WindowEvent::CloseRequested,
                ..*old(self)
            }),
    {
        match event {
            WindowEvent::CloseRequested => {
                self.close_requested = true;
                WindowAction::Ignore
            },
            WindowEvent::Resized { width, height } => {
                if width == 0 || height == 0 {
                    WindowAction::ReportMinimized
                } else {
                    WindowAction::ResizeSurface
                }
            },
            WindowEvent::KeyPressed(key) => {
                let index: i32 = match key {
                    Key::Digit1 => 1,
                    Key::Digit2 => 2,
                    Key::Digit3 => 3,
                    Key::Digit4 => 4,
                    Key::Digit5 => 5,
                    Key::Other => 0,
                };
                WindowAction::ChangeExample(index)
            },
            WindowEvent::RedrawRequested => WindowAction::RenderFrame,
            WindowEvent::Other => WindowAction::Ignore,
        }
    }

    /// Takes a request from the host to show another example.
    pub fn user_event(&self, requested_index: i32) -> (r: WindowAction)
        ensures
            r == WindowAction::ChangeExample(example_index_for_request(requested_index)),
    {
        if 1 <= requested_index && requested_index <= 4 {
            WindowAction::ChangeExample(requested_index)
        } else {
            WindowAction::ChangeExample(0)
        }
    }

    /// Says how to wait for the next turn and whether to leave.
    pub fn about_to_wait(&self) -> (r: WaitDecision)
        ensures
            r == self.wait_decision(),
    {
        let (sleep_millis, control_flow) = match self.mode {
            Mode::Wait => (0, Some(ControlFlow::Wait)),
            Mode::WaitUntil => {
                if self.wait_cancelled {
                    (0, None)
                } else {
                    (0, Some(ControlFlow::WaitUntil { millis: WAIT_MILLIS }))
                }
            },
            Mode::Poll => (POLL_SLEEP_MILLIS, Some(ControlFlow::Poll)),
        };
        WaitDecision { sleep_millis, control_flow, exit: self.close_requested }
    }
}

} // verus!
