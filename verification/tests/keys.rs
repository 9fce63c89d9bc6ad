use chip8::keyboard::{Keyboard, NO_KEY, QUIT_KEY};

#[test]
fn get_pressed_follows_the_keypad_layout() {
    let keyboard = Keyboard::new();
    let host = "1234qwerasdfzxcv";
    let pad: [u8; 16] = [1, 2, 3, 0xC, 4, 5, 6, 0xD, 7, 8, 9, 0xE, 0xA, 0, 0xB, 0xF];
    for (symbol, key) in host.chars().zip(pad.iter()) {
        assert_eq!(keyboard.get_pressed(symbol as i32), *key);
    }
    assert_eq!(keyboard.get_pressed(27), QUIT_KEY);
    assert_eq!(keyboard.get_pressed('p' as i32), NO_KEY);
    assert_eq!(keyboard.get_pressed('Q' as i32), NO_KEY);
    assert_eq!(keyboard.get_pressed(0), NO_KEY);
    assert_eq!(keyboard.get_pressed(-1), NO_KEY);
    assert_eq!(keyboard.get_pressed(i32::MAX), NO_KEY);
}

#[test]
fn a_new_keyboard_holds_nothing() {
    let keyboard = Keyboard::new();
    assert!(keyboard.keys_pressed.is_empty());
    assert_eq!(keyboard.last_key_pressed, None);
    assert!(!keyboard.quit_requested);
    for key in 0..=255u8 {
        assert!(!keyboard.is_key_pressed(key));
    }
}

#[test]
fn a_key_that_went_down_is_held() {
    let mut keyboard = Keyboard::new();
    keyboard.on_key_down('x' as i32);
    assert_eq!(keyboard.keys_pressed, vec![0]);
    assert_eq!(keyboard.last_key_pressed, Some(0));
    assert!(keyboard.is_key_pressed(0));
    assert!(!keyboard.is_key_pressed(1));
    keyboard.on_key_down('v' as i32);
    assert_eq!(keyboard.keys_pressed, vec![0, 0xF]);
    assert_eq!(keyboard.last_key_pressed, Some(0xF));
    assert!(keyboard.is_key_pressed(0));
    assert!(keyboard.is_key_pressed(0xF));
}

#[test]
fn a_key_that_came_up_is_held_no_more() {
    let mut keyboard = Keyboard::new();
    keyboard.on_key_down('w' as i32);
    keyboard.on_key_down('a' as i32);
    keyboard.on_key_down('w' as i32);
    keyboard.on_key_down('s' as i32);
    assert_eq!(keyboard.keys_pressed, vec![5, 7, 5, 8]);
    keyboard.on_key_up('w' as i32);
    assert_eq!(keyboard.keys_pressed, vec![7, 8]);
    assert_eq!(keyboard.last_key_pressed, None);
    assert!(!keyboard.is_key_pressed(5));
    assert!(keyboard.is_key_pressed(7));
    keyboard.on_key_up('1' as i32);
    assert_eq!(keyboard.keys_pressed, vec![7, 8]);
}

#[test]
fn a_key_that_is_no_key_changes_nothing() {
    let mut keyboard = Keyboard::new();
    keyboard.on_key_down('a' as i32);
    keyboard.on_key_down('p' as i32);
    assert_eq!(keyboard.keys_pressed, vec![7]);
    assert_eq!(keyboard.last_key_pressed, Some(7));
    keyboard.on_key_up('p' as i32);
    assert_eq!(keyboard.keys_pressed, vec![7]);
    assert_eq!(keyboard.last_key_pressed, Some(7));
    assert!(!keyboard.quit_requested);
}

#[test]
fn escape_asks_to_quit() {
    let mut keyboard = Keyboard::new();
    keyboard.on_key_down('a' as i32);
    keyboard.on_key_down(27);
    assert!(keyboard.quit_requested);
    assert_eq!(keyboard.keys_pressed, vec![7]);
    assert_eq!(keyboard.last_key_pressed, Some(7));
    keyboard.on_key_up(27);
    assert!(keyboard.quit_requested);
    assert_eq!(keyboard.last_key_pressed, Some(7));
}
