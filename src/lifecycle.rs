//! Facts about a registration and the notifications that follow it.
use vstd::prelude::*;

use crate::dispatcher::{
    delivery_next, dispatch_next, dispatch_output, event_name, ShortcutEvent,
    ShortcutEventDispatcher, ShortcutState,
};
use crate::registry::{
    feature_of, installed, register_next, register_result, OsReply, Platform, RegisterError,
    ShortcutFeature, ShortcutRegistry,
};
use crate::shortcut::ShortcutSpec;

verus! {

/// On a desktop target with nothing held, registering any combination that
/// the operating system reserves installs a dispatcher, and a press of that
/// combination then yields exactly one notification, named
/// `global-shortcut-triggered` and carrying the combination's label.
pub proof fn lemma_press_after_register(reg: ShortcutRegistry, spec: ShortcutSpec)
    requires
        reg.platform == Platform::Desktop,
        reg.registered is None,
    ensures
        register_result(reg, OsReply::Reserved) is Ok,
        installed(register_next(reg, spec, OsReply::Reserved)) is Some,
        dispatch_output(
            installed(register_next(reg, spec, OsReply::Reserved))->Some_0,
            ShortcutEvent { spec, state: ShortcutState::Pressed },
        ) == Some((event_name(), spec.label())),
{
}

/// A release never yields a notification, and a second identical release
/// changes nothing more.
pub proof fn lemma_release_is_silent(d: ShortcutEventDispatcher, event: ShortcutEvent)
    requires
        event.state == ShortcutState::Released,
    ensures
        dispatch_output(d, event) is None,
        dispatch_next(dispatch_next(d, event), event) == dispatch_next(d, event),
{
}

/// An event for any combination other than the registered one yields no
/// notification and leaves the dispatcher as it was.
pub proof fn lemma_other_combination_ignored(d: ShortcutEventDispatcher, event: ShortcutEvent)
    requires
        event.spec != d.spec,
    ensures
        dispatch_output(d, event) is None,
        dispatch_next(d, event) == d,
{
}

/// Where the combination is bound elsewhere, registering on a desktop target
/// fails with `AlreadyBound` and installs no dispatcher that was not already
/// there; with nothing held before, none at all.
pub proof fn lemma_taken_installs_nothing(reg: ShortcutRegistry, spec: ShortcutSpec)
    requires
        reg.platform == Platform::Desktop,
    ensures
        register_result(reg, OsReply::Taken) == Err::<(), RegisterError>(RegisterError::AlreadyBound),
        register_next(reg, spec, OsReply::Taken) == reg.registered,
        reg.registered is None ==> installed(register_next(reg, spec, OsReply::Taken)) is None,
{
}

/// On a target without hotkeys, registering fails with `PlatformUnsupported`
/// whatever the operating system would answer, holds nothing new, and startup
/// carries on with the feature skipped.
pub proof fn lemma_unsupported_platform(reg: ShortcutRegistry, spec: ShortcutSpec, reply: OsReply)
    requires
        reg.platform == Platform::Mobile,
    ensures
        register_result(reg, reply) == Err::<(), RegisterError>(RegisterError::PlatformUnsupported),
        register_next(reg, spec, reply) == reg.registered,
        feature_of(register_result(reg, reply)) == ShortcutFeature::Skipped,
{
}

/// The answer to a notification, refused or taken, does not change what any
/// later event yields: after a refusal a matching press still yields its
/// notification.
pub proof fn lemma_delivery_keeps_dispatching(
    d: ShortcutEventDispatcher,
    delivered: bool,
    event: ShortcutEvent,
)
    ensures
        dispatch_output(delivery_next(d, delivered), event) == dispatch_output(d, event),
        event.spec == d.spec && event.state == ShortcutState::Pressed ==> dispatch_output(
            delivery_next(d, false),
            event,
        ) == Some((event_name(), d.spec.label())),
{
}

} // verus!
