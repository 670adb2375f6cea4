use cosmic_kernel::input::keyboard::{handle_scancode, pop_event, sc_to_char, scancode_to_event, Keyboard, RingBuffer};
use cosmic_kernel::input::InputEvent;

#[test]
fn letters_follow_shift_xor_caps() {
    assert_eq!(sc_to_char(0x1E, false, false), Some('a'));
    assert_eq!(sc_to_char(0x1E, true, false), Some('A'));
    assert_eq!(sc_to_char(0x1E, false, true), Some('A'));
    assert_eq!(sc_to_char(0x1E, true, true), Some('a'));
}

#[test]
fn caps_lock_leaves_other_keys_alone() {
    assert_eq!(sc_to_char(0x02, false, true), Some('1'));
    assert_eq!(sc_to_char(0x02, true, true), Some('!'));
    assert_eq!(sc_to_char(0x28, true, false), Some('"'));
    assert_eq!(sc_to_char(0x39, true, true), Some(' '));
    assert_eq!(sc_to_char(0x3B, false, false), None);
}

#[test]
fn special_keys_decode() {
    assert_eq!(scancode_to_event(0x01, false, false), Some(InputEvent::Escape));
    assert_eq!(scancode_to_event(0x0E, true, true), Some(InputEvent::Backspace));
    assert_eq!(scancode_to_event(0x0F, false, false), Some(InputEvent::Tab));
    assert_eq!(scancode_to_event(0x1C, false, false), Some(InputEvent::Enter));
    assert_eq!(scancode_to_event(0x48, false, false), Some(InputEvent::Up));
    assert_eq!(scancode_to_event(0x50, false, false), Some(InputEvent::Down));
    assert_eq!(scancode_to_event(0x4B, false, false), Some(InputEvent::Left));
    assert_eq!(scancode_to_event(0x4D, false, false), Some(InputEvent::Right));
    assert_eq!(scancode_to_event(0x10, true, false), Some(InputEvent::Char('Q')));
    assert_eq!(scancode_to_event(0x00, false, false), None);
}

#[test]
fn presses_queue_events_in_order() {
    let mut kb = Keyboard::new();
    handle_scancode(&mut kb, 0x23);
    handle_scancode(&mut kb, 0x23 | 0x80);
    handle_scancode(&mut kb, 0x17);
    assert_eq!(pop_event(&mut kb), Some(InputEvent::Char('h')));
    assert_eq!(pop_event(&mut kb), Some(InputEvent::Char('i')));
    assert_eq!(pop_event(&mut kb), None);
}

#[test]
fn shift_is_held_until_released() {
    let mut kb = Keyboard::new();
    handle_scancode(&mut kb, 0x2A);
    handle_scancode(&mut kb, 0x1E);
    handle_scancode(&mut kb, 0x2A | 0x80);
    handle_scancode(&mut kb, 0x1E);
    handle_scancode(&mut kb, 0x36);
    handle_scancode(&mut kb, 0x03);
    assert_eq!(pop_event(&mut kb), Some(InputEvent::Char('A')));
    assert_eq!(pop_event(&mut kb), Some(InputEvent::Char('a')));
    assert_eq!(pop_event(&mut kb), Some(InputEvent::Char('@')));
}

#[test]
fn caps_lock_toggles_on_press_only() {
    let mut kb = Keyboard::new();
    handle_scancode(&mut kb, 0x3A);
    handle_scancode(&mut kb, 0x3A | 0x80);
    handle_scancode(&mut kb, 0x2E);
    handle_scancode(&mut kb, 0x3A);
    handle_scancode(&mut kb, 0x2E);
    assert_eq!(pop_event(&mut kb), Some(InputEvent::Char('C')));
    assert_eq!(pop_event(&mut kb), Some(InputEvent::Char('c')));
    assert_eq!(pop_event(&mut kb), None);
}

#[test]
fn full_buffer_drops_new_events() {
    let mut kb = Keyboard::new();
    for _ in 0..300 {
        handle_scancode(&mut kb, 0x1C);
    }
    let mut n = 0;
    while pop_event(&mut kb).is_some() {
        n += 1;
    }
    assert_eq!(n, 255);
}

#[test]
fn ring_buffer_is_fifo_across_wraparound() {
    let mut rb = RingBuffer::new();
    for round in 0..600u32 {
        let c = char::from_u32('a' as u32 + (round % 26)).unwrap();
        rb.push(InputEvent::Char(c));
        assert_eq!(rb.pop(), Some(InputEvent::Char(c)));
    }
    assert_eq!(rb.pop(), None);
}

#[test]
fn full_ring_buffer_drops_new_events() {
    let mut rb = RingBuffer::new();
    for i in 0..255u32 {
        rb.push(InputEvent::Char(char::from_u32('a' as u32 + i % 26).unwrap()));
    }
    rb.push(InputEvent::Enter);
    for i in 0..255u32 {
        assert_eq!(rb.pop(), Some(InputEvent::Char(char::from_u32('a' as u32 + i % 26).unwrap())));
    }
    assert_eq!(rb.pop(), None);
    rb.push(InputEvent::Tab);
    assert_eq!(rb.pop(), Some(InputEvent::Tab));
}
