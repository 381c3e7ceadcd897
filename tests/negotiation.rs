use keyboardthing::keyboard::{Event, FakeInput, InjectError, InputCore};
use keyboardthing::registry::{classify, Registry, RegistryError};
use keyboardthing::session::SessionState;
use keyboardthing::translate::{insert_text, press_key};
use keyboardthing::types::{BackendKind, Handle, Interface, Key, Request, Role};

fn h(id: u32) -> Handle {
    Handle { id }
}

fn global(name: u32, interface: &str, version: u32) -> Event {
    Event::Global { name, interface: interface.to_string(), version }
}

#[test]
fn classify_known_interfaces() {
    assert_eq!(classify("org_kde_kwin_fake_input"), Interface::FakeInput);
    assert_eq!(classify("zwp_virtual_keyboard_v1"), Interface::VirtualKeyboard);
    assert_eq!(classify("zwp_input_method_v1"), Interface::InputMethod);
    assert_eq!(classify("zwp_input_panel_v1"), Interface::InputPanel);
    assert_eq!(classify("wl_seat"), Interface::Other);
    assert_eq!(classify(""), Interface::Other);
}

#[test]
fn key_names() {
    assert_eq!(Key::from_name("BS"), Key::Backspace);
    assert_eq!(Key::from_name("TAB"), Key::Tab);
    assert_eq!(Key::from_name("LSHFT"), Key::LeftShift);
    assert_eq!(Key::from_name("bs"), Key::Other);
    assert_eq!(Key::from_name("A"), Key::Other);
}

#[test]
fn privileged_is_never_overridden() {
    let mut r = Registry::new();
    assert_eq!(r.select(), BackendKind::Unavailable);
    r.observe(1, "zwp_virtual_keyboard_v1", 1).unwrap();
    assert_eq!(r.select(), BackendKind::GenericVirtualInput);
    r.observe(2, "org_kde_kwin_fake_input", 4).unwrap();
    assert_eq!(r.select(), BackendKind::PrivilegedInjection);
    r.observe(3, "zwp_virtual_keyboard_v1", 1).unwrap();
    assert_eq!(r.select(), BackendKind::PrivilegedInjection);
    r.observe(4, "zwp_input_method_v1", 1).unwrap();
    assert_eq!(r.select(), BackendKind::PrivilegedInjection);
    r.observe(5, "wl_output", 3).unwrap();
    assert_eq!(r.select(), BackendKind::PrivilegedInjection);
}

#[test]
fn input_method_selects_generic() {
    let mut r = Registry::new();
    r.observe(7, "wl_compositor", 5).unwrap();
    assert_eq!(r.select(), BackendKind::Unavailable);
    r.observe(8, "zwp_input_method_v1", 1).unwrap();
    assert_eq!(r.select(), BackendKind::GenericVirtualInput);
}

#[test]
fn bind_requests_per_interface() {
    let mut r = Registry::new();
    assert_eq!(
        r.observe(1, "zwp_input_method_v1", 3).unwrap(),
        vec![Request::Bind { name: 1, role: Role::InputMethod, version: 1 }]
    );
    assert_eq!(
        r.observe(2, "zwp_input_panel_v1", 1).unwrap(),
        vec![Request::Bind { name: 2, role: Role::InputPanel, version: 1 }]
    );
    assert_eq!(
        r.observe(3, "org_kde_kwin_fake_input", 6).unwrap(),
        vec![Request::Bind { name: 3, role: Role::FakeInput, version: 4 }]
    );
    assert_eq!(
        r.observe(4, "org_kde_kwin_fake_input", 2).unwrap(),
        vec![Request::Bind { name: 4, role: Role::FakeInput, version: 2 }]
    );
    assert_eq!(r.observe(5, "zwp_virtual_keyboard_v1", 1).unwrap(), vec![]);
    assert_eq!(r.observe(6, "wl_shm", 1).unwrap(), vec![]);
    assert_eq!(r.globals.len(), 6);
}

#[test]
fn repeated_name_is_idempotent() {
    let mut r = Registry::new();
    r.observe(1, "zwp_input_method_v1", 1).unwrap();
    assert_eq!(r.observe(1, "zwp_input_method_v1", 1), Ok(vec![]));
    assert_eq!(r.globals.len(), 1);
    assert_eq!(r.select(), BackendKind::GenericVirtualInput);
}

#[test]
fn conflicting_name_is_refused() {
    let mut r = Registry::new();
    r.observe(1, "zwp_input_method_v1", 1).unwrap();
    assert_eq!(
        r.observe(1, "org_kde_kwin_fake_input", 4),
        Err(RegistryError::Conflict { name: 1 })
    );
    assert_eq!(r.globals.len(), 1);
    assert_eq!(r.globals[0].interface, "zwp_input_method_v1");
    assert_eq!(r.select(), BackendKind::GenericVirtualInput);
    assert!(!r.offers_interface(Interface::FakeInput));
    assert!(r.offers_interface(Interface::InputMethod));
}

#[test]
fn nothing_observed_means_no_session_and_no_requests() {
    let mut c = InputCore::new();
    assert_eq!(c.current(), None);
    assert_eq!(c.insert_text("hello"), vec![]);
    assert_eq!(c.press_key(Key::Backspace), vec![]);
    assert_eq!(c.key("TAB"), vec![]);
    assert_eq!(c.key("LSHFT"), vec![]);
    // an activation with no input method bound is released, not adopted
    assert_eq!(c.activate(h(30)), vec![Request::Destroy { object: h(30) }]);
    assert_eq!(c.current(), None);
    assert_eq!(c.insert_text("x"), vec![]);
}

#[test]
fn second_activation_wins() {
    let mut s = SessionState::new();
    s.activate(h(1));
    s.activate(h(2));
    assert_eq!(s.current(), Some(h(2)));

    let mut c = InputCore::new();
    c.observe(1, "zwp_input_method_v1", 1).unwrap();
    assert_eq!(c.bound(Role::InputMethod, h(10), 1), vec![]);
    assert_eq!(c.activate(h(11)), vec![]);
    assert_eq!(c.activate(h(12)), vec![]);
    assert_eq!(c.current(), Some(h(12)));
}

#[test]
fn stale_deactivation_keeps_session_and_releases() {
    let mut c = InputCore::new();
    c.observe(1, "zwp_input_method_v1", 1).unwrap();
    c.bound(Role::InputMethod, h(10), 1);
    c.activate(h(11));
    let out = c.deactivate(h(99));
    assert_eq!(out, vec![Request::Destroy { object: h(99) }]);
    assert_eq!(c.current(), Some(h(11)));
    let out = c.deactivate(h(11));
    assert_eq!(out, vec![Request::Destroy { object: h(11) }]);
    assert_eq!(c.current(), None);
    assert_eq!(c.insert_text("a"), vec![]);
}

#[test]
fn deactivation_without_session_releases() {
    let mut s = SessionState::new();
    assert_eq!(s.deactivate(h(5)), vec![Request::Destroy { object: h(5) }]);
    assert_eq!(s.current(), None);
}

#[test]
fn end_to_end_generic_insert() {
    let mut c = InputCore::new();
    let binds = c.apply_event(global(1, "zwp_input_method_v1", 1)).unwrap();
    assert_eq!(binds, vec![Request::Bind { name: 1, role: Role::InputMethod, version: 1 }]);
    assert_eq!(c.select(), BackendKind::GenericVirtualInput);
    assert_eq!(c.bound(Role::InputMethod, h(3), 1), vec![]);
    assert_eq!(c.apply_event(Event::Activate { id: h(40) }), Ok(vec![]));
    let out = c.insert_text("hi");
    assert_eq!(
        out,
        vec![Request::CommitString { context: h(40), serial: 0, text: "hi".to_string() }]
    );
}

#[test]
fn end_to_end_unauthenticated_fake_input_is_refused() {
    let mut c = InputCore::new();
    let binds = c.apply_event(global(2, "org_kde_kwin_fake_input", 4)).unwrap();
    assert_eq!(binds, vec![Request::Bind { name: 2, role: Role::FakeInput, version: 4 }]);
    assert_eq!(c.select(), BackendKind::PrivilegedInjection);
    assert_eq!(c.bound(Role::FakeInput, h(5), 4), vec![]);
    assert_eq!(c.fake_input, Some(FakeInput::Unauthenticated { handle: h(5), version: 4 }));
    assert_eq!(c.fake_key(30, true), Err(InjectError::Unauthenticated));
    assert_eq!(c.fake_key(30, false), Err(InjectError::Unauthenticated));
}

#[test]
fn fake_input_after_handshake() {
    let mut c = InputCore::new();
    assert_eq!(c.fake_key(30, true), Err(InjectError::NotBound));
    assert_eq!(c.authenticate("keyboard", "typing"), Err(InjectError::NotBound));
    c.observe(2, "org_kde_kwin_fake_input", 4).unwrap();
    c.bound(Role::FakeInput, h(5), 4);
    assert_eq!(
        c.authenticate("keyboard", "on-screen typing"),
        Ok(Request::Authenticate {
            fake_input: h(5),
            application: "keyboard".to_string(),
            reason: "on-screen typing".to_string(),
        })
    );
    assert_eq!(
        c.fake_key(30, true),
        Ok(Request::KeyboardKey { fake_input: h(5), key: 30, pressed: true })
    );
}

#[test]
fn fake_input_without_keys_is_unsupported() {
    let mut c = InputCore::new();
    c.observe(2, "org_kde_kwin_fake_input", 2).unwrap();
    c.bound(Role::FakeInput, h(5), 2);
    c.authenticate("keyboard", "typing").unwrap();
    assert_eq!(c.fake_key(30, true), Err(InjectError::Unsupported));
}

#[test]
fn unrequested_bind_is_released() {
    let mut c = InputCore::new();
    assert_eq!(c.bound(Role::InputMethod, h(8), 1), vec![Request::Destroy { object: h(8) }]);
    assert_eq!(c.input_method, None);
    assert_eq!(c.bound(Role::FakeInput, h(9), 4), vec![Request::Destroy { object: h(9) }]);
    assert_eq!(c.fake_input, None);
}

#[test]
fn special_keys() {
    let ctx = Some(h(7));
    assert_eq!(
        press_key(ctx, Key::Backspace),
        vec![
            Request::DeleteSurroundingText { context: h(7), index: 1, length: 1 },
            Request::CommitString { context: h(7), serial: 0, text: String::new() },
        ]
    );
    assert_eq!(
        press_key(ctx, Key::Tab),
        vec![Request::CommitString { context: h(7), serial: 0, text: "\t".to_string() }]
    );
    assert_eq!(
        press_key(ctx, Key::LeftShift),
        vec![Request::Modifiers {
            context: h(7),
            serial: 0,
            depressed: 0,
            latched: 0,
            locked: 0,
            group: 0,
        }]
    );
    assert_eq!(press_key(ctx, Key::Other), vec![]);
    assert_eq!(press_key(None, Key::Tab), vec![]);
    assert_eq!(insert_text(None, "abc"), vec![]);
    assert_eq!(
        insert_text(ctx, ""),
        vec![Request::CommitString { context: h(7), serial: 0, text: String::new() }]
    );
}

#[test]
fn key_by_name_on_core() {
    let mut c = InputCore::new();
    c.observe(1, "zwp_input_method_v1", 1).unwrap();
    c.bound(Role::InputMethod, h(2), 1);
    c.activate(h(3));
    assert_eq!(
        c.key("TAB"),
        vec![Request::CommitString { context: h(3), serial: 0, text: "\t".to_string() }]
    );
    assert_eq!(c.key("Q"), vec![]);
}

#[test]
fn panel_surface_requested_once() {
    let mut c = InputCore::new();
    c.observe(4, "zwp_input_panel_v1", 1).unwrap();
    assert_eq!(c.bound(Role::InputPanel, h(20), 1), vec![]);
    assert_eq!(
        c.provide_surface(h(21)),
        vec![Request::GetPanelSurface { panel: h(20), surface: h(21) }]
    );
    assert_eq!(c.provide_surface(h(21)), vec![]);
    assert_eq!(c.panel_surface_created(h(22)), vec![]);
    assert_eq!(c.panel_surface, Some(h(22)));
    assert_eq!(c.panel_surface_created(h(23)), vec![Request::Destroy { object: h(23) }]);
    assert_eq!(c.panel_surface, Some(h(22)));
}

#[test]
fn panel_bound_after_surface() {
    let mut c = InputCore::new();
    assert_eq!(c.provide_surface(h(21)), vec![]);
    c.observe(4, "zwp_input_panel_v1", 1).unwrap();
    assert_eq!(
        c.bound(Role::InputPanel, h(20), 1),
        vec![Request::GetPanelSurface { panel: h(20), surface: h(21) }]
    );
    assert_eq!(c.provide_surface(h(21)), vec![]);
}

#[test]
fn readiness_and_unreachable_backend() {
    let mut c = InputCore::new();
    assert!(!c.unreachable());
    assert!(c.resynced());
    assert!(!c.resynced());
    assert!(c.unreachable());
    c.observe(1, "zwp_virtual_keyboard_v1", 1).unwrap();
    assert!(!c.unreachable());
}

#[test]
fn conflicting_event_is_an_error() {
    let mut c = InputCore::new();
    c.apply_event(global(1, "zwp_input_panel_v1", 1)).unwrap();
    assert_eq!(
        c.apply_event(global(1, "zwp_input_method_v1", 1)),
        Err(RegistryError::Conflict { name: 1 })
    );
    assert_eq!(c.select(), BackendKind::Unavailable);
}
