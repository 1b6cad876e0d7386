use ferrokrait::input::{Action, Input, KeyCode};

const W: KeyCode = KeyCode::Key(17);
const A: KeyCode = KeyCode::Key(30);
const S: KeyCode = KeyCode::Key(31);
const D: KeyCode = KeyCode::Key(32);

#[test]
fn any_key_pressed_is_about_emptiness() {
    assert!(!Input::any_key_pressed(&vec![]));
    assert!(Input::any_key_pressed(&vec![W]));
}

#[test]
fn get_key_is_one_for_a_held_key() {
    let pressed = vec![W, D];
    assert_eq!(Input::get_key(&pressed, W), 1);
    assert_eq!(Input::get_key(&pressed, D), 1);
    assert_eq!(Input::get_key(&pressed, A), 0);
}

#[test]
fn get_key_any_is_one_for_any_held_key() {
    assert_eq!(Input::get_key(&vec![S], KeyCode::Any), 1);
    assert_eq!(Input::get_key(&vec![], KeyCode::Any), 0);
    assert_eq!(Input::get_key(&vec![], W), 0);
}

#[test]
fn get_vector_takes_opposite_keys_against_each_other() {
    assert_eq!(Input::get_vector(&vec![W, D], W, S, A, D), (1, 1));
    assert_eq!(Input::get_vector(&vec![S, A], W, S, A, D), (-1, -1));
    assert_eq!(Input::get_vector(&vec![W, S, A, D], W, S, A, D), (0, 0));
    assert_eq!(Input::get_vector(&vec![], W, S, A, D), (0, 0));
    assert_eq!(Input::get_vector(&vec![A], W, S, A, D), (-1, 0));
}

#[test]
fn get_action_needs_every_key() {
    let jump = Action::new(vec![W, D]);
    assert!(Input::get_action(&vec![D, S, W], &jump));
    assert!(!Input::get_action(&vec![W], &jump));
    assert!(!Input::get_action(&vec![], &jump));
    assert!(Input::get_action(&vec![], &Action::new(vec![])));
}
