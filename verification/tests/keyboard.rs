use iced::input::keyboard::{character_received, is_private_use_character, Event};

#[test]
fn the_private_use_area_of_the_basic_plane_is_private() {
    assert!(!is_private_use_character('\u{D7FF}'));
    assert!(is_private_use_character('\u{E000}'));
    assert!(is_private_use_character('\u{F000}'));
    assert!(is_private_use_character('\u{F8FF}'));
    assert!(!is_private_use_character('\u{F900}'));
}

#[test]
fn the_two_supplementary_private_use_planes_are_private() {
    assert!(!is_private_use_character('\u{EFFFF}'));
    assert!(is_private_use_character('\u{F0000}'));
    assert!(is_private_use_character('\u{FFFFD}'));
    assert!(!is_private_use_character('\u{FFFFE}'));
    assert!(!is_private_use_character('\u{FFFFF}'));
    assert!(is_private_use_character('\u{100000}'));
    assert!(is_private_use_character('\u{10FFFD}'));
    assert!(!is_private_use_character('\u{10FFFE}'));
    assert!(!is_private_use_character('\u{10FFFF}'));
}

#[test]
fn letters_and_digits_are_not_private() {
    assert!(!is_private_use_character('a'));
    assert!(!is_private_use_character('0'));
    assert!(!is_private_use_character('\u{0}'));
    assert!(!is_private_use_character('é'));
}

#[test]
fn private_use_characters_give_no_event() {
    assert_eq!(character_received('a'), Some(Event::CharacterReceived('a')));
    assert_eq!(character_received('\u{D7FF}'), Some(Event::CharacterReceived('\u{D7FF}')));
    assert_eq!(character_received('\u{E000}'), None);
    assert_eq!(character_received('\u{F8FF}'), None);
    assert_eq!(character_received('\u{F900}'), Some(Event::CharacterReceived('\u{F900}')));
    assert_eq!(character_received('\u{10FFFD}'), None);
}
