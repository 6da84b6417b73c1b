//! Events of the session and the decisions of the input producer.
//!
//! Three sources feed one queue: the input producer, which waits a bounded
//! time for a keystroke and reports either the key or a tick; the refresh
//! timer; and the consumer itself, which turns the closure of the queue into
//! a quit event. The queue and the waiting belong to the program around this
//! library; what is enqueued, and when a producer stops, is decided here.

use vstd::prelude::*;

verus! {

/// The keys that the session tells apart. Every other key is `Other`.
#[derive(Debug, Clone, Copy, PartialEq, Eq, Structural)]
pub enum KeyCode {
    Char(char),
    Enter,
    Tab,
    BackTab,
    Up,
    Down,
    Other,
}

/// The modifier keys held down with a key.
#[derive(Debug, Clone, Copy, PartialEq, Eq, Structural)]
pub struct KeyModifiers {
    pub shift: bool,
    pub control: bool,
    pub alt: bool,
    pub super_key: bool,
    pub hyper: bool,
    pub meta: bool,
}

impl KeyModifiers {
    /// Control is held and no other modifier is.
    pub open spec fn spec_is_control(self) -> bool {
        self.control && !self.shift && !self.alt && !self.super_key && !self.hyper && !self.meta
    }

    /// No modifier is held.
    pub fn none() -> (r: Self)
        ensures
            r == (KeyModifiers {
                shift: false,
                control: false,
                alt: false,
                super_key: false,
                hyper: false,
                meta: false,
            }),
            !r.spec_is_control(),
    {
        KeyModifiers {
            shift: false,
            control: false,
            alt: false,
            super_key: false,
            hyper: false,
            meta: false,
        }
    }

    /// Control alone is held.
    pub fn control() -> (r: Self)
        ensures
            r == (KeyModifiers {
                shift: false,
                control: true,
                alt: false,
                super_key: false,
                hyper: false,
                meta: false,
            }),
            r.spec_is_control(),
    {
        KeyModifiers {
            shift: false,
            control: true,
            alt: false,
            super_key: false,
            hyper: false,
            meta: false,
        }
    }

    /// Whether control is held and no other modifier is.
    pub fn is_control(&self) -> (b: bool)
        ensures
            b == self.spec_is_control(),
    {
        self.control && !self.shift && !self.alt && !self.super_key && !self.hyper && !self.meta
    }
}

/// Whether a key went down, is held, or came up.
#[derive(Debug, Clone, Copy, PartialEq, Eq, Structural)]
pub enum KeyEventKind {
    Press,
    Repeat,
    Release,
}

/// One keyboard event.
#[derive(Debug, Clone, Copy, PartialEq, Eq, Structural)]
pub struct KeyEvent {
    pub code: KeyCode,
    pub modifiers: KeyModifiers,
    pub kind: KeyEventKind,
}

impl KeyEvent {
    /// A press of `code` with no modifier held.
    pub fn press(code: KeyCode) -> (r: Self)
        ensures
            r.code == code,
            r.kind == KeyEventKind::Press,
            !r.modifiers.spec_is_control(),
            r.modifiers == (KeyModifiers {
                shift: false,
                control: false,
                alt: false,
                super_key: false,
                hyper: false,
                meta: false,
            }),
    {
        KeyEvent { code, modifiers: KeyModifiers::none(), kind: KeyEventKind::Press }
    }

    /// The key combination that ends the session: `q` with any modifiers, or
    /// `c` with control alone.
    pub open spec fn spec_is_quit(self) -> bool {
        self.code == KeyCode::Char('q') || (self.code == KeyCode::Char('c')
            && self.modifiers.spec_is_control())
    }

    /// Whether this is the key combination that ends the session.
    pub fn is_quit(&self) -> (b: bool)
        ensures
            b == self.spec_is_quit(),
    {
        match self.code {
            KeyCode::Char(c) => c == 'q' || (c == 'c' && self.modifiers.is_control()),
            _ => false,
        }
    }
}

/// What the consumer of the queue receives.
#[derive(Debug, Clone, Copy, PartialEq, Eq, Structural)]
pub enum AppEvent {
    Key(KeyEvent),
    Tick,
    Refresh,
    Quit,
}

/// What one bounded wait of the input producer ended with.
#[derive(Debug, Clone, Copy, PartialEq, Eq, Structural)]
pub enum InputPoll {
    /// A keyboard event arrived in time.
    Key(KeyEvent),
    /// Something other than a keyboard event arrived in time.
    Other,
    /// Nothing arrived before the wait ran out.
    TimedOut,
}

/// What a producer does after one round.
#[derive(Debug, Clone, Copy, PartialEq, Eq, Structural)]
pub enum ProducerStep {
    /// Go on with the next round.
    Continue,
    /// The queue is closed: end the producer.
    Stop,
}

/// The event that the input producer enqueues after a wait, if any: the key
/// for a key press, a tick when the wait ran out, nothing for anything else.
pub open spec fn spec_input_event(poll: InputPoll) -> Option<AppEvent> {
    match poll {
        InputPoll::Key(key) => if key.kind == KeyEventKind::Press {
            Some(AppEvent::Key(key))
        } else {
            None
        },
        InputPoll::Other => None,
        InputPoll::TimedOut => Some(AppEvent::Tick),
    }
}

/// How long the input producer waits for a keystroke, in milliseconds.
pub const INPUT_POLL_MILLIS: u64 = 250;

/// The period of the refresh timer, in seconds.
pub const REFRESH_PERIOD_SECS: u64 = 30;

/// The rules of the event queue: what its producers enqueue, when they stop,
/// and what its consumer makes of what it receives.
pub struct EventHandler {}

impl EventHandler {
    /// The rules, which hold no state.
    pub fn new() -> Self {
        EventHandler {}
    }

    /// The event that the input producer enqueues after one bounded wait.
    pub fn input_event(poll: InputPoll) -> (r: Option<AppEvent>)
        ensures
            r == spec_input_event(poll),
    {
        match poll {
            InputPoll::Key(key) => match key.kind {
                KeyEventKind::Press => Some(AppEvent::Key(key)),
                _ => None,
            },
            InputPoll::Other => None,
            InputPoll::TimedOut => Some(AppEvent::Tick),
        }
    }

    /// The event that the refresh timer enqueues each time it fires.
    pub fn refresh_event() -> (r: AppEvent)
        ensures
            r == AppEvent::Refresh,
    {
        AppEvent::Refresh
    }

    /// What a producer does after an attempt to enqueue: it goes on while
    /// the queue takes its events and stops at the first one refused.
    pub fn after_send(accepted: bool) -> (r: ProducerStep)
        ensures
            r == if accepted {
                ProducerStep::Continue
            } else {
                ProducerStep::Stop
            },
    {
        if accepted {
            ProducerStep::Continue
        } else {
            ProducerStep::Stop
        }
    }

    /// The event that the consumer handles next, given what the queue handed
    /// out: the event itself, or `Quit` once the queue is closed.
    pub fn next(&self, received: Option<AppEvent>) -> (r: AppEvent)
        ensures
            r == match received {
                Some(event) => event,
                None => AppEvent::Quit,
            },
    {
        match received {
            Some(event) => event,
            None => AppEvent::Quit,
        }
    }
}

} // verus!
