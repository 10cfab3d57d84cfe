use haiku_backend::channel::Channel;
use haiku_backend::requests::RequestQueue;
use haiku_backend::keys::{convert_keycode, key_mods, KeyCode, KeyMods};
use haiku_backend::protocol::Event;
use haiku_backend::worker::{Action, ControlRequest, MainThreadState, WindowState};

#[test]
fn lifecycle_uninitialized_created_destroyed() {
    let mut s = MainThreadState::new(false);
    assert_eq!(s.state, WindowState::Uninitialized);
    assert!(!s.quit);

    let a = s.process_message(Event::ViewCreated);
    assert_eq!(s.state, WindowState::Created);
    assert!(!s.quit);
    assert_eq!(a, vec![]);

    let a = s.process_message(Event::ViewChanged { width: 800, height: 600 });
    assert_eq!(s.state, WindowState::Created);
    assert!(!s.quit);
    assert_eq!(
        a,
        vec![
            Action::SetDisplaySize { width: 800, height: 600 },
            Action::Resize { width: 800, height: 600 },
        ]
    );

    let a = s.process_message(Event::ViewDestroyed);
    assert_eq!(s.state, WindowState::Destroyed);
    assert!(s.quit);
    assert_eq!(a, vec![Action::AcceptQuit]);
}

#[test]
fn nothing_is_forwarded_after_destroyed() {
    let mut s = MainThreadState::new(false);
    s.process_message(Event::ViewCreated);
    s.process_message(Event::ViewDestroyed);
    assert!(s.quit);

    // A second destroy does not set quit "again" or acknowledge again.
    let a = s.process_message(Event::ViewDestroyed);
    assert_eq!(a, vec![]);
    // No late message reaches the handler, and Created is never re-entered.
    let a = s.process_message(Event::MouseMoved { x_bits: 1, y_bits: 2 });
    assert_eq!(a, vec![]);
    let a = s.process_message(Event::ViewCreated);
    assert_eq!(a, vec![]);
    assert_eq!(s.state, WindowState::Destroyed);
}

#[test]
fn control_requests() {
    let mut s = MainThreadState::new(false);
    s.update_requested = false;

    s.process_request(ControlRequest::ScheduleUpdate);
    assert!(s.update_requested);

    s.process_request(ControlRequest::SetFullscreen(true));
    assert!(s.fullscreen);
    s.process_request(ControlRequest::SetFullscreen(false));
    assert!(!s.fullscreen);

    // ShowKeyboard is a capability gap: accepted, no effect.
    let before = s;
    s.process_request(ControlRequest::ShowKeyboard(true));
    assert_eq!(s, before);
}

#[test]
fn frame_orders_actions_and_clears_update() {
    let mut s = MainThreadState::new(false);
    s.process_message(Event::ViewCreated);
    s.update_requested = true;
    let a = s.frame();
    assert_eq!(
        a,
        vec![
            Action::LockContext,
            Action::Update,
            Action::Draw,
            Action::SwapBuffers,
            Action::UnlockContext,
        ]
    );
    assert!(!s.update_requested);
}

#[test]
fn frame_before_view_exists_only_updates() {
    let mut s = MainThreadState::new(false);
    let a = s.frame();
    assert_eq!(a, vec![Action::Update]);
    assert!(!s.update_requested);
}

#[test]
fn blocking_step_receives_exactly_one_message_and_renders_no_frame() {
    let mut s = MainThreadState::new(false);
    s.process_message(Event::ViewCreated);
    s.update_requested = false;
    let mut chan = Channel::new(8);
    chan.send(Event::MouseMoved { x_bits: 1, y_bits: 2 });
    chan.send(Event::MouseMoved { x_bits: 3, y_bits: 4 });

    let out = s.step(true, &mut RequestQueue::new(), &mut chan);
    // Exactly one blocking receive: one message consumed, one left.
    assert_eq!(chan.len(), 1);
    assert!(!out.rendered);
    assert_eq!(out.actions, vec![Action::MouseMotion { x_bits: 1, y_bits: 2 }]);
}

#[test]
fn blocking_step_with_pending_update_drains_and_renders() {
    let mut s = MainThreadState::new(false);
    s.process_message(Event::ViewCreated);
    s.update_requested = false;
    let mut chan = Channel::new(8);
    chan.send(Event::MouseMoved { x_bits: 1, y_bits: 2 });
    chan.send(Event::MouseMoved { x_bits: 3, y_bits: 4 });

    // A drained ScheduleUpdate turns the blocking wait into a poll drain
    // and forces a frame.
    let mut requests = RequestQueue::new();
    requests.push(ControlRequest::ScheduleUpdate);
    let out = s.step(true, &mut requests, &mut chan);
    assert_eq!(requests.len(), 0);
    assert_eq!(chan.len(), 0);
    assert!(out.rendered);
    assert_eq!(
        out.actions,
        vec![
            Action::MouseMotion { x_bits: 1, y_bits: 2 },
            Action::MouseMotion { x_bits: 3, y_bits: 4 },
            Action::LockContext,
            Action::Update,
            Action::Draw,
            Action::SwapBuffers,
            Action::UnlockContext,
        ]
    );
    assert!(!s.update_requested);
}

#[test]
fn polling_step_renders_exactly_one_frame_regardless_of_events() {
    let mut s = MainThreadState::new(false);
    s.process_message(Event::ViewCreated);
    s.update_requested = false;
    let mut chan = Channel::new(8);

    // Empty channel, blocking mode off: still exactly one frame.
    let out = s.step(false, &mut RequestQueue::new(), &mut chan);
    assert!(out.rendered);
    assert_eq!(
        out.actions,
        vec![
            Action::LockContext,
            Action::Update,
            Action::Draw,
            Action::SwapBuffers,
            Action::UnlockContext,
        ]
    );

    // With events queued, they are all drained, then one frame renders.
    chan.send(Event::MouseMoved { x_bits: 1, y_bits: 2 });
    chan.send(Event::MouseMoved { x_bits: 3, y_bits: 4 });
    chan.send(Event::MouseMoved { x_bits: 5, y_bits: 6 });
    let out = s.step(false, &mut RequestQueue::new(), &mut chan);
    assert_eq!(chan.len(), 0);
    assert!(out.rendered);
    assert_eq!(out.actions.iter().filter(|a| **a == Action::Draw).count(), 1);
}

#[test]
fn step_exits_loop_only_via_destroy() {
    let mut s = MainThreadState::new(false);
    s.process_message(Event::ViewCreated);
    let mut chan = Channel::new(8);
    chan.send(Event::ViewChanged { width: 10, height: 20 });
    chan.send(Event::ViewDestroyed);

    let out = s.step(false, &mut RequestQueue::new(), &mut chan);
    assert!(s.quit);
    assert_eq!(s.state, WindowState::Destroyed);
    assert!(out.actions.contains(&Action::AcceptQuit));
}

#[test]
fn unmapped_scan_code_yields_no_key_event() {
    let mut s = MainThreadState::new(false);
    s.process_message(Event::ViewCreated);
    let a = s.process_message(Event::KeyDown { keycode: 0x11, modifiers: 0, repeat: false });
    assert_eq!(a, vec![]);
    let a = s.process_message(Event::KeyUp { keycode: 0x64, modifiers: 0 });
    assert_eq!(a, vec![]);
}

#[test]
fn mapped_scan_code_round_trips_to_its_portable_key() {
    assert_eq!(convert_keycode(0x1B), Some(KeyCode::Key0));
    let mut s = MainThreadState::new(false);
    s.process_message(Event::ViewCreated);
    let a = s.process_message(Event::KeyDown { keycode: 0x1B, modifiers: 0, repeat: true });
    assert_eq!(
        a,
        vec![Action::KeyDownInput {
            key: KeyCode::Key0,
            mods: KeyMods::default(),
            repeat: true,
        }]
    );
    let a = s.process_message(Event::KeyUp { keycode: 0x1B, modifiers: 0 });
    assert_eq!(a, vec![Action::KeyUpInput { key: KeyCode::Key0, mods: KeyMods::default() }]);
}

#[test]
fn invalid_codepoint_message_is_dropped() {
    let mut s = MainThreadState::new(false);
    s.process_message(Event::ViewCreated);
    let a = s.process_message(Event::Character { codepoint: 0xD800, modifiers: 0, repeat: false });
    assert_eq!(a, vec![]);
    let a = s.process_message(Event::Character { codepoint: 0x41, modifiers: 0, repeat: false });
    assert_eq!(
        a,
        vec![Action::CharInput { codepoint: 0x41, mods: KeyMods::default(), repeat: false }]
    );
}

#[test]
fn keycode_table_spot_checks() {
    assert_eq!(convert_keycode(0x12), Some(KeyCode::Key1));
    assert_eq!(convert_keycode(0x27), Some(KeyCode::Q));
    assert_eq!(convert_keycode(0x3C), Some(KeyCode::A));
    assert_eq!(convert_keycode(0x47), Some(KeyCode::Enter));
    assert_eq!(convert_keycode(0x5E), Some(KeyCode::Space));
    assert_eq!(convert_keycode(0x57), Some(KeyCode::Up));
    assert_eq!(convert_keycode(0x63), Some(KeyCode::Right));
    assert_eq!(convert_keycode(0x00), None);
    assert_eq!(convert_keycode(-1), None);
    assert_eq!(convert_keycode(0x100), None);
}

#[test]
fn modifier_bits_map_to_flags() {
    let none = key_mods(0);
    assert_eq!(none, KeyMods { shift: false, ctrl: false, alt: false, logo: false });

    let shift = key_mods(0x01);
    assert_eq!(shift, KeyMods { shift: true, ctrl: false, alt: false, logo: false });

    let ctrl = key_mods(0x04);
    assert_eq!(ctrl, KeyMods { shift: false, ctrl: true, alt: false, logo: false });

    let alt = key_mods(0x80);
    assert_eq!(alt, KeyMods { shift: false, ctrl: false, alt: true, logo: false });

    let logo = key_mods(0x40);
    assert_eq!(logo, KeyMods { shift: false, ctrl: false, alt: false, logo: true });

    // A bit outside the four flags sets nothing: each flag answers only
    // to its own bit.
    let caps = key_mods(0x08);
    assert_eq!(caps, KeyMods { shift: false, ctrl: false, alt: false, logo: false });

    let all = key_mods(0x01 | 0x04 | 0x80 | 0x40);
    assert_eq!(all, KeyMods { shift: true, ctrl: true, alt: true, logo: true });
}

#[test]
fn request_queue_push_never_blocks_and_drain_empties() {
    let mut q = RequestQueue::new();
    assert_eq!(q.len(), 0);
    q.push(ControlRequest::ScheduleUpdate);
    q.push(ControlRequest::SetFullscreen(true));
    q.push(ControlRequest::ShowKeyboard(false));
    assert_eq!(q.len(), 3);

    let pending = q.drain();
    assert_eq!(
        pending,
        vec![
            ControlRequest::ScheduleUpdate,
            ControlRequest::SetFullscreen(true),
            ControlRequest::ShowKeyboard(false),
        ]
    );
    // Nothing is left stuck across iterations.
    assert_eq!(q.len(), 0);
    assert_eq!(q.drain(), vec![]);
}

#[test]
fn step_applies_requests_before_pacing() {
    let mut s = MainThreadState::new(false);
    s.process_message(Event::ViewCreated);
    s.update_requested = false;
    let mut chan = Channel::new(4);
    let mut requests = RequestQueue::new();
    requests.push(ControlRequest::SetFullscreen(true));

    // SetFullscreen alone requests no update: blocking mode still waits
    // and renders nothing.
    let out = s.step(true, &mut requests, &mut chan);
    assert!(s.fullscreen);
    assert!(!out.rendered);
    assert_eq!(out.actions, vec![]);
}
