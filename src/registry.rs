use vstd::prelude::*;

use crate::dispatcher::{Phase, ShortcutEventDispatcher};
use crate::shortcut::ShortcutSpec;

verus! {

/// The kind of target the process runs on.
#[derive(Clone, Copy, Debug, PartialEq, Eq, Structural)]
pub enum Platform {
    /// A target with system-wide hotkeys.
    Desktop,
    /// A target without them.
    Mobile,
}

/// What the operating system answered when asked to reserve a combination.
#[derive(Clone, Copy, Debug, PartialEq, Eq, Structural)]
pub enum OsReply {
    Reserved,
    /// Another process or component holds the combination.
    Taken,
}

#[derive(Clone, Copy, Debug, PartialEq, Eq, Structural)]
pub enum RegisterError {
    /// The combination is held by another binder.
    AlreadyBound,
    /// The target has no system-wide hotkeys.
    PlatformUnsupported,
}

/// Owns the one system-wide registration of this process.
#[derive(Debug)]
pub struct ShortcutRegistry {
    pub platform: Platform,
    /// The combination this registry holds, if any.
    pub registered: Option<ShortcutSpec>,
}

/// The error a registration meets before the operating system is asked, if any.
pub open spec fn precheck(reg: ShortcutRegistry) -> Option<RegisterError> {
    if reg.platform == Platform::Mobile {
        Some(RegisterError::PlatformUnsupported)
    } else if reg.registered is Some {
        Some(RegisterError::AlreadyBound)
    } else {
        None
    }
}

/// The result of registering with the operating system's answer `reply`.
pub open spec fn register_result(reg: ShortcutRegistry, reply: OsReply) -> Result<(), RegisterError> {
    match precheck(reg) {
        Some(e) => Err(e),
        None => match reply {
            OsReply::Reserved => Ok(()),
            OsReply::Taken => Err(RegisterError::AlreadyBound),
        },
    }
}

/// The combination held after registering `spec` with the answer `reply`.
pub open spec fn register_next(reg: ShortcutRegistry, spec: ShortcutSpec, reply: OsReply) -> Option<
    ShortcutSpec,
> {
    if register_result(reg, reply) is Ok {
        Some(spec)
    } else {
        reg.registered
    }
}

/// The dispatcher that a registration installs: one for the held combination,
/// released and with nothing sent; none while nothing is held.
pub open spec fn installed(registered: Option<ShortcutSpec>) -> Option<ShortcutEventDispatcher> {
    match registered {
        Some(s) => Some(ShortcutEventDispatcher { spec: s, phase: Phase::Idle, delivered: 0, failed: 0 }),
        None => None,
    }
}

impl ShortcutRegistry {
    /// An empty registry on `platform`.
    pub fn new(platform: Platform) -> (r: ShortcutRegistry)
        ensures
            r.platform == platform,
            r.registered is None,
    {
        ShortcutRegistry { platform, registered: None }
    }

    /// Whether the operating system should be asked to reserve a combination
    /// now: `Ok` where it should, else the error that registering gives
    /// whatever it would answer.
    pub fn request(&self) -> (r: Result<(), RegisterError>)
        ensures
            r is Ok <==> precheck(*self) is None,
            r is Err ==> r == Err::<(), RegisterError>(precheck(*self)->Some_0),
    {
        match self.platform {
            Platform::Mobile => Err(RegisterError::PlatformUnsupported),
            Platform::Desktop => match self.registered {
                Some(_) => Err(RegisterError::AlreadyBound),
                None => Ok(()),
            },
        }
    }

    /// Records the registration of `spec`, given the operating system's answer
    /// `reply`. On a target without hotkeys, or while a combination is held,
    /// the answer is not looked at. On failure nothing is held that was not
    /// held before.
    pub fn register(&mut self, spec: ShortcutSpec, reply: OsReply) -> (r: Result<(), RegisterError>)
        ensures
            r == register_result(*old(self), reply),
            final(self).registered == register_next(*old(self), spec, reply),
            final(self).platform == old(self).platform,
    {
        let checked = self.request();
        match checked {
            Err(e) => Err(e),
            Ok(()) => match reply {
                OsReply::Reserved => {
                    self.registered = Some(spec);
                    Ok(())
                },
                OsReply::Taken => Err(RegisterError::AlreadyBound),
            },
        }
    }

    /// Releases the held combination and returns it, for the caller to
    /// release with the operating system.
    pub fn unregister(&mut self) -> (r: Option<ShortcutSpec>)
        ensures
            r == old(self).registered,
            final(self).registered is None,
            final(self).platform == old(self).platform,
    {
        let r = self.registered;
        self.registered = None;
        r
    }

    /// Whether `spec` is the combination this registry holds.
    pub fn is_registered(&self, spec: &ShortcutSpec) -> (r: bool)
        ensures
            r == (self.registered == Some(*spec)),
    {
        match self.registered {
            Some(s) => s == *spec,
            None => false,
        }
    }

    /// The dispatcher to install as the platform's callback, if a combination is held.
    pub fn dispatcher(&self) -> (r: Option<ShortcutEventDispatcher>)
        ensures
            r == installed(self.registered),
    {
        match self.registered {
            Some(s) => Some(ShortcutEventDispatcher::new(s)),
            None => None,
        }
    }
}

/// How the rest of the application carries on after trying to register.
#[derive(Clone, Copy, Debug, PartialEq, Eq, Structural)]
pub enum ShortcutFeature {
    /// The shortcut is live.
    Active,
    /// The combination was taken: the feature is off and the failure is reported.
    Disabled,
    /// The target has no hotkeys: the feature is left out without an error.
    Skipped,
}

pub open spec fn feature_of(r: Result<(), RegisterError>) -> ShortcutFeature {
    match r {
        Ok(_) => ShortcutFeature::Active,
        Err(RegisterError::AlreadyBound) => ShortcutFeature::Disabled,
        Err(RegisterError::PlatformUnsupported) => ShortcutFeature::Skipped,
    }
}

/// What startup does with the result of a registration: never abort, switch
/// the feature off where the combination was taken, skip it where the target
/// has no hotkeys.
pub fn startup_feature(r: &Result<(), RegisterError>) -> (f: ShortcutFeature)
    ensures
        f == feature_of(*r),
{
    match r {
        Ok(()) => ShortcutFeature::Active,
        Err(RegisterError::AlreadyBound) => ShortcutFeature::Disabled,
        Err(RegisterError::PlatformUnsupported) => ShortcutFeature::Skipped,
    }
}

} // verus!
