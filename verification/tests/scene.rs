use pong::scene::{numeral, Drawable, Label};

#[test]
fn numerals_are_decimal_without_leading_zeros() {
    assert_eq!(numeral(0), "0");
    assert_eq!(numeral(5), "5");
    assert_eq!(numeral(9), "9");
    assert_eq!(numeral(10), "10");
    assert_eq!(numeral(1234567890), "1234567890");
    assert_eq!(numeral(100), "100");
    assert_eq!(numeral(u32::MAX), "4294967295");
}

#[test]
fn prompts_read_as_on_the_arcade_screen() {
    assert_eq!(Label::StartPrompt.text(), "Press SPACE To Play PONG!");
    assert_eq!(Label::RestartPrompt.text(), "Press SPACE To Play Again");
}

#[test]
fn winner_label_names_the_player() {
    assert_eq!(Label::Winner { player: 1 }.text(), "Player 1 Has Won!");
    assert_eq!(Label::Winner { player: 2 }.text(), "Player 2 Has Won!");
}

#[test]
fn score_label_names_player_and_points() {
    assert_eq!(Label::Score { player: 1, points: 0 }.text(), "Player 1: 0");
    assert_eq!(Label::Score { player: 2, points: 5 }.text(), "Player 2: 5");
    assert_eq!(Label::Score { player: 2, points: 12 }.text(), "Player 2: 12");
    assert_eq!(Label::Score { player: 255, points: u32::MAX }.text(), "Player 255: 4294967295");
}

#[test]
fn drawables_compare_by_their_fields() {
    let a = Drawable::Rectangle { x: 1, y: 2, width: 3, height: 4 };
    let b = Drawable::Ellipse { x: 1, y: 2, width: 3, height: 4 };
    assert_eq!(a, Drawable::Rectangle { x: 1, y: 2, width: 3, height: 4 });
    assert_ne!(a, b);
    assert_ne!(a, Drawable::Rectangle { x: 1, y: 2, width: 3, height: 5 });
}
