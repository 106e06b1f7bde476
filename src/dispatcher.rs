use vstd::prelude::*;
use vstd::string::*;

use crate::shortcut::ShortcutSpec;

verus! {

/// The two transitions the platform reports for a registered combination.
#[derive(Clone, Copy, Debug, PartialEq, Eq, Structural)]
pub enum ShortcutState {
    Pressed,
    Released,
}

/// One raw notification from the platform: which combination, and how it moved.
#[derive(Clone, Copy, Debug, PartialEq, Eq, Structural)]
pub struct ShortcutEvent {
    pub spec: ShortcutSpec,
    pub state: ShortcutState,
}

/// Whether the registered combination is currently held down.
#[derive(Clone, Copy, Debug, PartialEq, Eq, Structural)]
pub enum Phase {
    Idle,
    Held,
}

/// The named event handed to the presentation layer.
#[derive(Debug)]
pub struct NotificationPayload {
    pub name: String,
    pub data: String,
}

impl View for NotificationPayload {
    type V = (Seq<char>, Seq<char>);

    open spec fn view(&self) -> (Seq<char>, Seq<char>) {
        (self.name@, self.data@)
    }
}

/// Why the presentation layer did not take a notification.
#[derive(Debug)]
pub struct NotifyError {
    pub message: String,
}

/// The name of the event emitted when the combination is pressed.
pub open spec fn event_name() -> Seq<char> {
    "global-shortcut-triggered"@
}

/// What a notification for `spec` carries: the event name and the label.
pub open spec fn notification_for(spec: ShortcutSpec) -> (Seq<char>, Seq<char>) {
    (event_name(), spec.label())
}

/// The view of an optional payload.
pub open spec fn payload_view(p: Option<NotificationPayload>) -> Option<(Seq<char>, Seq<char>)> {
    match p {
        Some(n) => Some(n@),
        None => None,
    }
}

/// The line reported when a notification could not be delivered.
pub open spec fn failure_report(message: Seq<char>) -> Seq<char> {
    "Failed to emit global-shortcut-triggered event: "@ + message
}

/// Turns the platform's raw callbacks for one registered combination into
/// notifications: one on each press, none on release, none for any other
/// combination.
#[derive(Clone, Copy, Debug)]
pub struct ShortcutEventDispatcher {
    pub spec: ShortcutSpec,
    pub phase: Phase,
    /// Notifications that the presentation layer took.
    pub delivered: u64,
    /// Notifications that it refused, reported and then dropped.
    pub failed: u64,
}

/// Whether `event` is about the registered combination.
pub open spec fn matches(d: ShortcutEventDispatcher, event: ShortcutEvent) -> bool {
    event.spec == d.spec
}

/// The notification that `event` calls for.
pub open spec fn dispatch_output(d: ShortcutEventDispatcher, event: ShortcutEvent) -> Option<
    (Seq<char>, Seq<char>),
> {
    if matches(d, event) && event.state == ShortcutState::Pressed {
        Some(notification_for(d.spec))
    } else {
        None
    }
}

/// The dispatcher after `event`: a matching press holds the combination, a
/// matching release lets it go, anything else leaves it as it was.
pub open spec fn dispatch_next(d: ShortcutEventDispatcher, event: ShortcutEvent) -> ShortcutEventDispatcher {
    if matches(d, event) {
        ShortcutEventDispatcher {
            phase: match event.state {
                ShortcutState::Pressed => Phase::Held,
                ShortcutState::Released => Phase::Idle,
            },
            ..d
        }
    } else {
        d
    }
}

/// Adds one to a counter, staying at the top once there.
pub open spec fn bump(n: u64) -> u64 {
    if n < u64::MAX {
        (n + 1) as u64
    } else {
        n
    }
}

/// The dispatcher after the presentation layer answered a notification.
pub open spec fn delivery_next(d: ShortcutEventDispatcher, ok: bool) -> ShortcutEventDispatcher {
    if ok {
        ShortcutEventDispatcher { delivered: bump(d.delivered), ..d }
    } else {
        ShortcutEventDispatcher { failed: bump(d.failed), ..d }
    }
}

impl ShortcutEventDispatcher {
    /// A dispatcher for `spec`, with the combination released and nothing sent.
    pub fn new(spec: ShortcutSpec) -> (r: ShortcutEventDispatcher)
        ensures
            r.spec == spec,
            r.phase == Phase::Idle,
            r.delivered == 0,
            r.failed == 0,
    {
        ShortcutEventDispatcher { spec, phase: Phase::Idle, delivered: 0, failed: 0 }
    }

    /// Handles one raw callback. Returns the notification to hand to the
    /// presentation layer, if the event calls for one.
    pub fn on_raw_event(&mut self, event: &ShortcutEvent) -> (r: Option<NotificationPayload>)
        ensures
            payload_view(r) == dispatch_output(*old(self), *event),
            *final(self) == dispatch_next(*old(self), *event),
    {
        if event.spec == self.spec {
            match event.state {
                ShortcutState::Pressed => {
                    self.phase = Phase::Held;
                    let name = String::from_str("global-shortcut-triggered");
                    let data = self.spec.label_string();
                    Some(NotificationPayload { name, data })
                },
                ShortcutState::Released => {
                    self.phase = Phase::Idle;
                    None
                },
            }
        } else {
            None
        }
    }

    /// Takes the presentation layer's answer to a notification. A refusal is
    /// counted and returned as a line to report; the dispatcher stays ready.
    pub fn record_delivery(&mut self, outcome: Result<(), NotifyError>) -> (report: Option<String>)
        ensures
            *final(self) == delivery_next(*old(self), outcome is Ok),
            match outcome {
                Ok(_) => report is None,
                Err(e) => report is Some && report->Some_0@ == failure_report(e.message@),
            },
    {
        match outcome {
            Ok(()) => {
                if self.delivered < u64::MAX {
                    self.delivered = self.delivered + 1;
                }
                None
            },
            Err(e) => {
                if self.failed < u64::MAX {
                    self.failed = self.failed + 1;
                }
                let mut line = String::from_str("Failed to emit global-shortcut-triggered event: ");
                line.append(e.message.as_str());
                Some(line)
            },
        }
    }
}

} // verus!
