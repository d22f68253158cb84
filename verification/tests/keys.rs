use std::cell::RefCell;
use std::rc::Rc;
use termcanvas::keyboard::{input_value, keys, set_callback, Key, Keyboard, USAGE_PAGE_KEYBOARD};

#[test]
fn from_code_letters_and_digits() {
    assert_eq!(Key::from_code(4), Some(Key::A));
    assert_eq!(Key::from_code(29), Some(Key::Z));
    assert_eq!(Key::from_code(30), Some(Key::N1));
    assert_eq!(Key::from_code(38), Some(Key::N9));
    assert_eq!(Key::from_code(39), Some(Key::N0));
}

#[test]
fn from_code_special_and_punctuation() {
    assert_eq!(Key::from_code(40), Some(Key::Enter));
    assert_eq!(Key::from_code(42), Some(Key::Backspace));
    assert_eq!(Key::from_code(43), Some(Key::Tab));
    assert_eq!(Key::from_code(44), Some(Key::Space));
    assert_eq!(Key::from_code(45), Some(Key::Hyphen));
    assert_eq!(Key::from_code(49), Some(Key::Backslash));
    assert_eq!(Key::from_code(51), Some(Key::Semicolon));
    assert_eq!(Key::from_code(56), Some(Key::Slash));
    assert_eq!(Key::from_code(57), Some(Key::CapsLock));
}

#[test]
fn from_code_function_and_arrow_keys() {
    assert_eq!(Key::from_code(58), Some(Key::F1));
    assert_eq!(Key::from_code(69), Some(Key::F12));
    assert_eq!(Key::from_code(70), Some(Key::F13));
    assert_eq!(Key::from_code(79), Some(Key::F22));
    assert_eq!(Key::from_code(81), Some(Key::F24));
    assert_eq!(Key::from_code(82), Some(Key::Up));
    assert_eq!(Key::from_code(83), Some(Key::Down));
    assert_eq!(Key::from_code(84), Some(Key::Left));
    assert_eq!(Key::from_code(85), Some(Key::Right));
}

#[test]
fn from_code_modifiers() {
    assert_eq!(Key::from_code(224), Some(Key::LeftCtrl));
    assert_eq!(Key::from_code(225), Some(Key::LeftShift));
    assert_eq!(Key::from_code(226), Some(Key::LeftAlt));
    assert_eq!(Key::from_code(227), Some(Key::LeftGui));
    assert_eq!(Key::from_code(228), Some(Key::RightCtrl));
    assert_eq!(Key::from_code(229), Some(Key::RightShift));
    assert_eq!(Key::from_code(230), Some(Key::RightAlt));
    assert_eq!(Key::from_code(231), Some(Key::RightGui));
}

#[test]
fn from_code_unknown_codes() {
    for code in [0u8, 1, 2, 3, 41, 50, 86, 100, 104, 223, 232, 255] {
        assert_eq!(Key::from_code(code), Some(Key::Unknown));
    }
}

#[test]
fn from_code_always_answers() {
    for code in 0..=255u8 {
        assert!(Key::from_code(code).is_some());
    }
}

#[test]
fn new_keyboard_holds_no_key() {
    let keyboard: Keyboard<fn(Key, bool)> = Keyboard::new();
    assert_eq!(keys(&keyboard), Vec::<Key>::new());
}

#[test]
fn keys_go_down_and_up() {
    let mut keyboard: Keyboard<fn(Key, bool)> = Keyboard::new();
    assert_eq!(input_value(&mut keyboard, USAGE_PAGE_KEYBOARD, 4, 1), Some((Key::A, true)));
    assert_eq!(input_value(&mut keyboard, USAGE_PAGE_KEYBOARD, 5, 1), Some((Key::B, true)));
    assert_eq!(input_value(&mut keyboard, USAGE_PAGE_KEYBOARD, 44, 7), Some((Key::Space, true)));
    assert_eq!(keys(&keyboard), vec![Key::A, Key::B, Key::Space]);
    assert_eq!(input_value(&mut keyboard, USAGE_PAGE_KEYBOARD, 5, 0), Some((Key::B, false)));
    assert_eq!(keys(&keyboard), vec![Key::A, Key::Space]);
    assert_eq!(input_value(&mut keyboard, USAGE_PAGE_KEYBOARD, 4, -1), Some((Key::A, true)));
    assert_eq!(keys(&keyboard), vec![Key::A, Key::Space, Key::A]);
    assert_eq!(input_value(&mut keyboard, USAGE_PAGE_KEYBOARD, 4, 0), Some((Key::A, false)));
    assert_eq!(keys(&keyboard), vec![Key::Space]);
}

#[test]
fn release_of_a_key_that_is_not_down() {
    let mut keyboard: Keyboard<fn(Key, bool)> = Keyboard::new();
    assert_eq!(input_value(&mut keyboard, 7, 82, 0), Some((Key::Up, false)));
    assert_eq!(keys(&keyboard), Vec::<Key>::new());
}

#[test]
fn input_that_is_no_key_changes_nothing() {
    let mut keyboard: Keyboard<fn(Key, bool)> = Keyboard::new();
    input_value(&mut keyboard, 7, 4, 1);
    // another usage page
    assert_eq!(input_value(&mut keyboard, 1, 4, 1), None);
    assert_eq!(input_value(&mut keyboard, 0x0c, 4, 0), None);
    // a usage that stands for no key
    assert_eq!(input_value(&mut keyboard, 7, 1, 1), None);
    assert_eq!(input_value(&mut keyboard, 7, 0, 0), None);
    assert_eq!(keys(&keyboard), vec![Key::A]);
}

#[test]
fn only_the_low_byte_of_a_usage_counts() {
    let mut keyboard: Keyboard<fn(Key, bool)> = Keyboard::new();
    assert_eq!(input_value(&mut keyboard, 7, 0x104, 1), Some((Key::A, true)));
    assert_eq!(input_value(&mut keyboard, 7, 0xffff_ff00 + 224, 1), Some((Key::LeftCtrl, true)));
    assert_eq!(input_value(&mut keyboard, 7, 0x100, 1), None);
    assert_eq!(keys(&keyboard), vec![Key::A, Key::LeftCtrl]);
}

#[test]
fn callback_hears_of_every_key_event() {
    let heard: Rc<RefCell<Vec<(Key, bool)>>> = Rc::new(RefCell::new(Vec::new()));
    let sink = heard.clone();
    let mut keyboard = Keyboard::new();
    set_callback(&mut keyboard, Some(move |key: Key, down: bool| sink.borrow_mut().push((key, down))));
    input_value(&mut keyboard, 7, 4, 1);
    input_value(&mut keyboard, 3, 4, 1);
    input_value(&mut keyboard, 7, 200, 1);
    input_value(&mut keyboard, 7, 4, 0);
    input_value(&mut keyboard, 7, 85, 0);
    assert_eq!(
        *heard.borrow(),
        vec![(Key::A, true), (Key::A, false), (Key::Right, false)]
    );
    assert_eq!(keys(&keyboard), Vec::<Key>::new());
}

#[test]
fn callback_can_be_taken_away() {
    let heard: Rc<RefCell<Vec<(Key, bool)>>> = Rc::new(RefCell::new(Vec::new()));
    let sink = heard.clone();
    let mut keyboard = Keyboard::new();
    set_callback(&mut keyboard, Some(move |key: Key, down: bool| sink.borrow_mut().push((key, down))));
    input_value(&mut keyboard, 7, 6, 1);
    set_callback(&mut keyboard, None);
    input_value(&mut keyboard, 7, 7, 1);
    assert_eq!(*heard.borrow(), vec![(Key::C, true)]);
    assert_eq!(keys(&keyboard), vec![Key::C, Key::D]);
}
