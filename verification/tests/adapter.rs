use haiku_backend::adapter::{
    first_scalar, miniquad_char, miniquad_key_down, miniquad_key_up, miniquad_mouse_button_down,
    miniquad_mouse_button_up, miniquad_mouse_moved, miniquad_view_changed, miniquad_view_created,
    miniquad_view_destroyed, send_message,
};
use haiku_backend::channel::Channel;
use haiku_backend::keys::{KeyCode, KeyMods};
use haiku_backend::protocol::Event;
use haiku_backend::requests::RequestQueue;
use haiku_backend::worker::{Action, MainThreadState};

#[test]
fn adapters_enqueue_in_callback_order() {
    let mut chan = Channel::new(16);
    assert!(miniquad_view_created(&mut chan));
    assert!(miniquad_view_changed(&mut chan, 640, 480));
    assert!(miniquad_mouse_moved(&mut chan, 1, 2));
    assert!(miniquad_mouse_button_down(&mut chan, 3, 4));
    assert!(miniquad_mouse_button_up(&mut chan, 5, 6));
    assert!(miniquad_key_down(&mut chan, 0x27, 0, 0));
    assert!(miniquad_key_up(&mut chan, 0x27, 0));
    assert!(miniquad_view_destroyed(&mut chan));

    assert_eq!(chan.receive_timeout(), Some(Event::ViewCreated));
    assert_eq!(chan.receive_timeout(), Some(Event::ViewChanged { width: 640, height: 480 }));
    assert_eq!(chan.receive_timeout(), Some(Event::MouseMoved { x_bits: 1, y_bits: 2 }));
    assert_eq!(chan.receive_timeout(), Some(Event::MouseButtonDown { x_bits: 3, y_bits: 4 }));
    assert_eq!(chan.receive_timeout(), Some(Event::MouseButtonUp { x_bits: 5, y_bits: 6 }));
    assert_eq!(
        chan.receive_timeout(),
        Some(Event::KeyDown { keycode: 0x27, modifiers: 0, repeat: false })
    );
    assert_eq!(chan.receive_timeout(), Some(Event::KeyUp { keycode: 0x27, modifiers: 0 }));
    assert_eq!(chan.receive_timeout(), Some(Event::ViewDestroyed));
    assert_eq!(chan.receive_timeout(), None);
}

#[test]
fn send_message_reports_backpressure() {
    let mut chan = Channel::new(1);
    assert!(send_message(&mut chan, &Event::ViewCreated));
    assert!(!send_message(&mut chan, &Event::ViewDestroyed));
    assert_eq!(chan.len(), 1);
}

#[test]
fn first_scalar_decodes_each_sequence_length() {
    // One byte: 'A'.
    assert_eq!(first_scalar(&b"A".to_vec()), Some(0x41));
    // Two bytes: U+00E9.
    assert_eq!(first_scalar(&vec![0xC3, 0xA9]), Some(0xE9));
    // Three bytes: U+20AC.
    assert_eq!(first_scalar(&vec![0xE2, 0x82, 0xAC]), Some(0x20AC));
    // Four bytes: U+1D11E.
    assert_eq!(first_scalar(&vec![0xF0, 0x9D, 0x84, 0x9E]), Some(0x1D11E));
    // Only the leading scalar is read.
    assert_eq!(first_scalar(&b"Abc".to_vec()), Some(0x41));
}

#[test]
fn first_scalar_rejects_malformed_sequences() {
    // Empty span.
    assert_eq!(first_scalar(&vec![]), None);
    // Lone continuation byte.
    assert_eq!(first_scalar(&vec![0x80]), None);
    // Invalid lead bytes.
    assert_eq!(first_scalar(&vec![0xFF]), None);
    assert_eq!(first_scalar(&vec![0xF5, 0x80, 0x80, 0x80]), None);
    // Overlong encodings.
    assert_eq!(first_scalar(&vec![0xC0, 0xAF]), None);
    assert_eq!(first_scalar(&vec![0xE0, 0x80, 0xAF]), None);
    assert_eq!(first_scalar(&vec![0xF0, 0x80, 0x80, 0x80]), None);
    // An encoded surrogate.
    assert_eq!(first_scalar(&vec![0xED, 0xA0, 0x80]), None);
    // Past the last plane.
    assert_eq!(first_scalar(&vec![0xF4, 0x90, 0x80, 0x80]), None);
    // Truncated sequences.
    assert_eq!(first_scalar(&vec![0xC3]), None);
    assert_eq!(first_scalar(&vec![0xE2, 0x82]), None);
    assert_eq!(first_scalar(&vec![0xF0, 0x9D, 0x84]), None);
}

#[test]
fn char_adapter_sends_the_first_scalar() {
    let mut chan = Channel::new(4);
    assert!(miniquad_char(&mut chan, &vec![0xE2, 0x82, 0xAC], 0x01, 1));
    assert_eq!(
        chan.receive_timeout(),
        Some(Event::Character { codepoint: 0x20AC, modifiers: 0x01, repeat: true })
    );
}

#[test]
fn char_adapter_repeat_flag_is_positive() {
    let mut chan = Channel::new(4);
    assert!(miniquad_char(&mut chan, &b"a".to_vec(), 0, 0));
    assert!(miniquad_char(&mut chan, &b"b".to_vec(), 0, -3));
    assert!(miniquad_char(&mut chan, &b"c".to_vec(), 0, 7));
    assert_eq!(
        chan.receive_timeout(),
        Some(Event::Character { codepoint: 0x61, modifiers: 0, repeat: false })
    );
    assert_eq!(
        chan.receive_timeout(),
        Some(Event::Character { codepoint: 0x62, modifiers: 0, repeat: false })
    );
    assert_eq!(
        chan.receive_timeout(),
        Some(Event::Character { codepoint: 0x63, modifiers: 0, repeat: true })
    );
}

#[test]
fn char_adapter_drops_malformed_input() {
    let mut chan = Channel::new(4);
    assert!(!miniquad_char(&mut chan, &vec![0xFF], 0, 0));
    assert!(!miniquad_char(&mut chan, &vec![], 0, 0));
    assert_eq!(chan.len(), 0);
}

#[test]
fn key_adapter_repeat_flag_is_positive() {
    let mut chan = Channel::new(4);
    assert!(miniquad_key_down(&mut chan, 0x1B, 0, 2));
    assert_eq!(
        chan.receive_timeout(),
        Some(Event::KeyDown { keycode: 0x1B, modifiers: 0, repeat: true })
    );
}

#[test]
fn events_flow_from_adapter_through_step_to_actions() {
    let mut chan = Channel::new(16);
    let mut s = MainThreadState::new(false);

    assert!(miniquad_view_created(&mut chan));
    assert!(miniquad_view_changed(&mut chan, 320, 200));
    assert!(miniquad_key_down(&mut chan, 0x1B, 0x01, 0));

    let out = s.step(false, &mut RequestQueue::new(), &mut chan);
    assert!(out.rendered);
    assert_eq!(
        out.actions,
        vec![
            Action::SetDisplaySize { width: 320, height: 200 },
            Action::Resize { width: 320, height: 200 },
            Action::KeyDownInput {
                key: KeyCode::Key0,
                mods: KeyMods { shift: true, ctrl: false, alt: false, logo: false },
                repeat: false,
            },
            Action::LockContext,
            Action::Update,
            Action::Draw,
            Action::SwapBuffers,
            Action::UnlockContext,
        ]
    );
}
