use icmt::event::Event;
use icmt::graphics::Dim;
use icmt::keyboard::{key_text, translate_system_event, SystemEvent, KEY_ESCAPE, KEY_LEFT, KEY_RETURN};

fn key_of(r: Option<Event>) -> (String, bool) {
    match r {
        Some(Event::KeyDown(k)) => {
            assert!(!k.alt && !k.ctrl && !k.meta);
            (k.key, k.shift)
        }
        other => panic!("not a key press: {:?}", other),
    }
}

#[test]
fn shift_selects_the_character_table() {
    let a = translate_system_event(SystemEvent::KeyDown { keycode: Some('a' as i32), shift: false });
    let upper_a = translate_system_event(SystemEvent::KeyDown { keycode: Some('a' as i32), shift: true });
    assert_eq!(key_of(a), ("a".to_string(), false));
    assert_eq!(key_of(upper_a), ("A".to_string(), true));
}

#[test]
fn digits_and_punctuation_follow_shift() {
    assert_eq!(key_text('1' as i32, false), Some("1"));
    assert_eq!(key_text('1' as i32, true), Some("!"));
    assert_eq!(key_text('0' as i32, true), Some(")"));
    assert_eq!(key_text('[' as i32, true), Some("{"));
    assert_eq!(key_text('\'' as i32, true), Some("\""));
    assert_eq!(key_text('z' as i32, true), Some("Z"));
    assert_eq!(key_text(KEY_RETURN, true), Some("Enter"));
    assert_eq!(key_text(KEY_LEFT, false), Some("ArrowLeft"));
}

#[test]
fn quit_and_escape_both_quit() {
    assert_eq!(translate_system_event(SystemEvent::Quit), Some(Event::Quit));
    assert_eq!(
        translate_system_event(SystemEvent::KeyDown { keycode: Some(KEY_ESCAPE), shift: false }),
        Some(Event::Quit)
    );
}

#[test]
fn unrecognized_keys_give_no_event() {
    assert_eq!(translate_system_event(SystemEvent::KeyDown { keycode: Some(1073741882), shift: false }), None);
    assert_eq!(translate_system_event(SystemEvent::KeyDown { keycode: None, shift: false }), None);
    assert_eq!(translate_system_event(SystemEvent::Other), None);
}

#[test]
fn resize_gives_window_size() {
    assert_eq!(
        translate_system_event(SystemEvent::WindowSizeChanged { width: 640, height: 480 }),
        Some(Event::WindowSize(Dim { width: 640, height: 480 }))
    );
    assert_eq!(
        translate_system_event(SystemEvent::WindowSizeChanged { width: -3, height: 7 }),
        Some(Event::WindowSize(Dim { width: 0, height: 7 }))
    );
}

#[test]
fn clipboard_failure_text_becomes_the_payload() {
    assert_eq!(
        translate_system_event(SystemEvent::ClipboardUpdate(Ok("pasted".to_string()))),
        Some(Event::ClipBoard("pasted".to_string()))
    );
    assert_eq!(
        translate_system_event(SystemEvent::ClipboardUpdate(Err("no clipboard".to_string()))),
        Some(Event::ClipBoard("error: no clipboard".to_string()))
    );
}
