use leafish::key::{Key, KeyCmp};
use leafish::player_like::PlayerLikeModelPart;

#[test]
fn letters_match_in_either_case() {
    assert!(Key::Character("a".to_string()).eq_ignore_case('a'));
    assert!(Key::Character("a".to_string()).eq_ignore_case('A'));
    assert!(Key::Character("A".to_string()).eq_ignore_case('a'));
    assert!(!Key::Character("b".to_string()).eq_ignore_case('a'));
}

#[test]
fn other_characters_match_exactly() {
    assert!(Key::Character("1".to_string()).eq_ignore_case('1'));
    assert!(!Key::Character("!".to_string()).eq_ignore_case('1'));
    assert!(!Key::Character("ab".to_string()).eq_ignore_case('a'));
    assert!(!Key::Character("".to_string()).eq_ignore_case('a'));
    assert!(!Key::Character("é".to_string()).eq_ignore_case('é'));
    assert!(!Key::Other.eq_ignore_case('a'));
}

#[test]
fn model_part_indices() {
    assert_eq!(PlayerLikeModelPart::Head.index(), 0);
    assert_eq!(PlayerLikeModelPart::ArmRight.index(), 5);
    assert_eq!(PlayerLikeModelPart::NameTag.index(), 6);
}
