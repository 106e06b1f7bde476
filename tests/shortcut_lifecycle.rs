use gtprompt::dispatcher::{
    NotifyError, Phase, ShortcutEvent, ShortcutEventDispatcher, ShortcutState,
};
use gtprompt::registry::{
    startup_feature, OsReply, Platform, RegisterError, ShortcutFeature, ShortcutRegistry,
};
use gtprompt::shortcut::{KeyCode, Modifier, Modifiers, ShortcutSpec};

fn alt_shift_p() -> ShortcutSpec {
    let m = Modifiers::empty().with(Modifier::Alt).with(Modifier::Shift);
    ShortcutSpec::new(m, KeyCode::Letter('P'))
}

fn event(spec: ShortcutSpec, state: ShortcutState) -> ShortcutEvent {
    ShortcutEvent { spec, state }
}

fn registered_dispatcher(spec: ShortcutSpec) -> ShortcutEventDispatcher {
    let mut reg = ShortcutRegistry::new(Platform::Desktop);
    assert_eq!(reg.register(spec, OsReply::Reserved), Ok(()));
    reg.dispatcher().expect("a dispatcher after registering")
}

#[test]
fn press_after_register_notifies_once() {
    let specs = vec![
        alt_shift_p(),
        ShortcutSpec::new(Modifiers::empty(), KeyCode::Space),
        ShortcutSpec::new(Modifiers::empty().with(Modifier::Control), KeyCode::Function(12)),
        ShortcutSpec::new(Modifiers::empty().with(Modifier::Meta), KeyCode::Digit('7')),
    ];
    let labels = vec!["Alt+Shift+P", "Space", "Control+F12", "Meta+7"];
    for (spec, label) in specs.into_iter().zip(labels) {
        let mut d = registered_dispatcher(spec);
        let p = d.on_raw_event(&event(spec, ShortcutState::Pressed)).expect("a notification");
        assert_eq!(p.name, "global-shortcut-triggered");
        assert_eq!(p.data, label);
        assert_eq!(d.phase, Phase::Held);
    }
}

#[test]
fn release_never_notifies() {
    let spec = alt_shift_p();
    let mut d = registered_dispatcher(spec);
    assert!(d.on_raw_event(&event(spec, ShortcutState::Released)).is_none());
    assert!(d.on_raw_event(&event(spec, ShortcutState::Released)).is_none());
    assert_eq!(d.phase, Phase::Idle);
    assert!(d.on_raw_event(&event(spec, ShortcutState::Pressed)).is_some());
    assert!(d.on_raw_event(&event(spec, ShortcutState::Released)).is_none());
    assert_eq!(d.phase, Phase::Idle);
}

#[test]
fn other_combinations_are_ignored() {
    let spec = alt_shift_p();
    let mut d = registered_dispatcher(spec);
    let others = vec![
        ShortcutSpec::new(Modifiers::empty().with(Modifier::Alt), KeyCode::Letter('P')),
        ShortcutSpec::new(spec.modifiers, KeyCode::Letter('Q')),
        ShortcutSpec::new(spec.modifiers.with(Modifier::Control), KeyCode::Letter('P')),
    ];
    for other in others {
        assert!(d.on_raw_event(&event(other, ShortcutState::Pressed)).is_none());
        assert!(d.on_raw_event(&event(other, ShortcutState::Released)).is_none());
        assert_eq!(d.phase, Phase::Idle);
    }
}

#[test]
fn taken_combination_is_already_bound() {
    let mut reg = ShortcutRegistry::new(Platform::Desktop);
    assert_eq!(reg.register(alt_shift_p(), OsReply::Taken), Err(RegisterError::AlreadyBound));
    assert!(reg.dispatcher().is_none());
    assert!(!reg.is_registered(&alt_shift_p()));
}

#[test]
fn second_registration_is_already_bound() {
    let mut reg = ShortcutRegistry::new(Platform::Desktop);
    assert_eq!(reg.request(), Ok(()));
    assert_eq!(reg.register(alt_shift_p(), OsReply::Reserved), Ok(()));
    assert_eq!(reg.request(), Err(RegisterError::AlreadyBound));
    let other = ShortcutSpec::new(Modifiers::empty(), KeyCode::Escape);
    assert_eq!(reg.register(other, OsReply::Reserved), Err(RegisterError::AlreadyBound));
    assert!(reg.is_registered(&alt_shift_p()));
    assert!(!reg.is_registered(&other));
}

#[test]
fn unsupported_platform_is_skipped() {
    for reply in [OsReply::Reserved, OsReply::Taken] {
        let mut reg = ShortcutRegistry::new(Platform::Mobile);
        assert_eq!(reg.request(), Err(RegisterError::PlatformUnsupported));
        let r = reg.register(alt_shift_p(), reply);
        assert_eq!(r, Err(RegisterError::PlatformUnsupported));
        assert!(reg.dispatcher().is_none());
        assert_eq!(startup_feature(&r), ShortcutFeature::Skipped);
    }
}

#[test]
fn startup_never_aborts() {
    assert_eq!(startup_feature(&Ok(())), ShortcutFeature::Active);
    assert_eq!(startup_feature(&Err(RegisterError::AlreadyBound)), ShortcutFeature::Disabled);
}

#[test]
fn failed_delivery_keeps_dispatcher_usable() {
    let spec = alt_shift_p();
    let mut d = registered_dispatcher(spec);
    assert!(d.on_raw_event(&event(spec, ShortcutState::Pressed)).is_some());
    let report = d.record_delivery(Err(NotifyError { message: "channel closed".to_string() }));
    assert_eq!(
        report.as_deref(),
        Some("Failed to emit global-shortcut-triggered event: channel closed")
    );
    assert_eq!(d.failed, 1);
    assert!(d.on_raw_event(&event(spec, ShortcutState::Released)).is_none());
    let p = d.on_raw_event(&event(spec, ShortcutState::Pressed)).expect("still notifies");
    assert_eq!(p.data, "Alt+Shift+P");
    assert!(d.record_delivery(Ok(())).is_none());
    assert_eq!(d.delivered, 1);
    assert_eq!(d.failed, 1);
}

#[test]
fn press_release_press_notifies_twice() {
    let spec = alt_shift_p();
    let mut d = registered_dispatcher(spec);
    let raw = [ShortcutState::Pressed, ShortcutState::Released, ShortcutState::Pressed];
    let mut sent = Vec::new();
    for state in raw {
        if let Some(p) = d.on_raw_event(&event(spec, state)) {
            sent.push((p.name, p.data));
        }
    }
    assert_eq!(sent.len(), 2);
    for (name, data) in sent {
        assert_eq!(name, "global-shortcut-triggered");
        assert_eq!(data, "Alt+Shift+P");
    }
}

#[test]
fn labels_follow_modifier_order() {
    let all = Modifiers::empty()
        .with(Modifier::Meta)
        .with(Modifier::Shift)
        .with(Modifier::Alt)
        .with(Modifier::Control);
    assert_eq!(ShortcutSpec::new(all, KeyCode::ArrowUp).label_string(), "Control+Alt+Shift+Meta+Up");
    assert_eq!(ShortcutSpec::new(Modifiers::empty(), KeyCode::Function(5)).label_string(), "F5");
    assert_eq!(ShortcutSpec::new(Modifiers::empty(), KeyCode::Function(200)).label_string(), "F200");
    assert_eq!(ShortcutSpec::new(Modifiers::empty(), KeyCode::Letter('Z')).label_string(), "Z");
}

#[test]
fn modifier_sets() {
    let m = Modifiers::empty().with(Modifier::Shift).with(Modifier::Shift);
    assert!(m.contains(Modifier::Shift));
    assert!(!m.contains(Modifier::Alt));
    assert_eq!(m, Modifiers::empty().with(Modifier::Shift));
}

#[test]
fn letter_keys() {
    assert_eq!(KeyCode::letter('P'), Some(KeyCode::Letter('P')));
    assert_eq!(KeyCode::letter('p'), Some(KeyCode::Letter('P')));
    assert_eq!(KeyCode::letter('1'), None);
    assert_eq!(KeyCode::letter('['), None);
}

#[test]
fn unregister_releases_the_slot() {
    let mut reg = ShortcutRegistry::new(Platform::Desktop);
    assert_eq!(reg.unregister(), None);
    assert_eq!(reg.register(alt_shift_p(), OsReply::Reserved), Ok(()));
    assert_eq!(reg.unregister(), Some(alt_shift_p()));
    assert!(reg.dispatcher().is_none());
    assert_eq!(reg.request(), Ok(()));
}
